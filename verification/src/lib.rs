//! Verified core of a project bootstrapper: given a language name, a license
//! pattern and a project name, it decides which `.gitignore` template and
//! which license to use, and produces the generated `NOTICE` and `README.md`
//! texts. All surrounding I/O (cloning the template repository, calling the
//! license API, prompting, writing files) lives outside this library.

pub mod casing;
pub mod gitignore;
pub mod license;
pub mod template;
pub mod text;
