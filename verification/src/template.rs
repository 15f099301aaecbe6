//! The generated files' texts: the `NOTICE` file for Apache 2.0 projects and
//! the `README.md`, each pinned character for character, together with the
//! decimal rendering of the copyright year.

use chrono::Datelike;
use vstd::prelude::*;

verus! {

/// The decimal digit character for `d`.
pub open spec fn digit_char(d: nat) -> char {
    if d == 0 {
        '0'
    } else if d == 1 {
        '1'
    } else if d == 2 {
        '2'
    } else if d == 3 {
        '3'
    } else if d == 4 {
        '4'
    } else if d == 5 {
        '5'
    } else if d == 6 {
        '6'
    } else if d == 7 {
        '7'
    } else if d == 8 {
        '8'
    } else {
        '9'
    }
}

/// The decimal digits of `n`, most significant first.
pub open spec fn dec_of(n: nat) -> Seq<char>
    decreases n,
{
    if n < 10 {
        seq![digit_char(n)]
    } else {
        dec_of(n / 10).push(digit_char(n % 10))
    }
}

/// The decimal rendering of `i`, with a leading minus sign when negative.
pub open spec fn int_dec_of(i: int) -> Seq<char> {
    if i < 0 {
        seq!['-'] + dec_of((-i) as nat)
    } else {
        dec_of(i as nat)
    }
}

/// Append the digit character for `d` to `s`.
fn append_digit(s: &mut String, d: u32)
    requires
        d < 10,
    ensures
        final(s)@ == old(s)@.push(digit_char(d as nat)),
{
    let lit: &str = if d == 0 {
        "0"
    } else if d == 1 {
        "1"
    } else if d == 2 {
        "2"
    } else if d == 3 {
        "3"
    } else if d == 4 {
        "4"
    } else if d == 5 {
        "5"
    } else if d == 6 {
        "6"
    } else if d == 7 {
        "7"
    } else if d == 8 {
        "8"
    } else {
        "9"
    };
    proof {
        reveal_strlit("0");
        reveal_strlit("1");
        reveal_strlit("2");
        reveal_strlit("3");
        reveal_strlit("4");
        reveal_strlit("5");
        reveal_strlit("6");
        reveal_strlit("7");
        reveal_strlit("8");
        reveal_strlit("9");
        assert(lit@ =~= seq![digit_char(d as nat)]);
    }
    s.append(lit);
    proof {
        assert(final(s)@ =~= old(s)@.push(digit_char(d as nat)));
    }
}

/// Render `n` in decimal.
pub fn dec_string_u32(n: u32) -> (s: String)
    ensures
        s@ == dec_of(n as nat),
    decreases n,
{
    if n < 10 {
        let mut s = String::new();
        append_digit(&mut s, n);
        proof {
            assert(s@ =~= seq![digit_char(n as nat)]);
        }
        s
    } else {
        let mut s = dec_string_u32(n / 10);
        append_digit(&mut s, n % 10);
        s
    }
}

/// Render `v` in decimal, with a leading minus sign when negative.
pub fn dec_string_i32(v: i32) -> (s: String)
    ensures
        s@ == int_dec_of(v as int),
{
    if v < 0 {
        let magnitude: i64 = -(v as i64);
        let mut s = "-".to_owned();
        let digits = dec_string_u32(magnitude as u32);
        s.append(digits.as_str());
        proof {
            reveal_strlit("-");
            assert(s@ =~= seq!['-'] + dec_of((-(v as int)) as nat));
        }
        s
    } else {
        dec_string_u32(v as u32)
    }
}

/// The text of the `NOTICE` file for an Apache 2.0 project.
pub open spec fn notice_spec(p: Seq<char>, a: Seq<char>, year: int) -> Seq<char> {
    p + "\nCopyright "@ + int_dec_of(year) + " "@ + a + "\n\n"@ + p
        + " was originally developed and maintained by "@ + a
        + ".\n\nPortions of this software were developed by various contributors, who retain\ncopyright on their work. These works are licensed to "@
        + a + ".\n\n"@ + p
        + " is available under the Apache 2.0 license. See LICENSE for more\ninformation.\n\nThis software uses other open source libraries. These libraries have their own\nlicenses and copyright holders."@
}

/// Build the `NOTICE` text for the project and author, with the given
/// copyright year.
pub fn notice_text(project_name: &str, author: &str, year: i32) -> (s: String)
    ensures
        s@ == notice_spec(project_name@, author@, year as int),
{
    let mut s = project_name.to_owned();
    s.append("\nCopyright ");
    let digits = dec_string_i32(year);
    s.append(digits.as_str());
    s.append(" ");
    s.append(author);
    s.append("\n\n");
    s.append(project_name);
    s.append(" was originally developed and maintained by ");
    s.append(author);
    s.append(
        ".\n\nPortions of this software were developed by various contributors, who retain\ncopyright on their work. These works are licensed to ",
    );
    s.append(author);
    s.append(".\n\n");
    s.append(project_name);
    s.append(
        " is available under the Apache 2.0 license. See LICENSE for more\ninformation.\n\nThis software uses other open source libraries. These libraries have their own\nlicenses and copyright holders.",
    );
    proof {
        assert(s@ =~= notice_spec(project_name@, author@, year as int));
    }
    s
}

/// The text of the generated `README.md`.
pub open spec fn readme_spec(p: Seq<char>, a: Seq<char>, g: Seq<char>) -> Seq<char> {
    "# "@ + p + "\n\n##### This project is maintained by ["@ + a + "]("@ + g + ").\n"@
}

/// Build the `README.md` text for the project, its author, and the author's
/// home page address.
pub fn readme_text(project_name: &str, author: &str, author_github: &str) -> (s: String)
    ensures
        s@ == readme_spec(project_name@, author@, author_github@),
{
    let mut s = "# ".to_owned();
    s.append(project_name);
    s.append("\n\n##### This project is maintained by [");
    s.append(author);
    s.append("](");
    s.append(author_github);
    s.append(").\n");
    proof {
        assert(s@ =~= readme_spec(project_name@, author@, author_github@));
    }
    s
}

/// Relies on `chrono::Utc::now`, read through `chrono::Datelike::year`: the
/// calendar year of the current instant. Nothing is promised of the clock.
#[verifier::external_body]
fn current_year() -> (y: i32) {
    chrono::Utc::now().year()
}

/// Build the `NOTICE` text for the current year. Whatever year the clock
/// yields, the text is the notice for that year.
pub fn apache_notice(project_name: &str, author: &str) -> (s: String)
    ensures
        exists|y: int| s@ == #[trigger] notice_spec(project_name@, author@, y),
{
    let year = current_year();
    let s = notice_text(project_name, author, year);
    proof {
        assert(s@ == notice_spec(project_name@, author@, year as int));
    }
    s
}

} // verus!
