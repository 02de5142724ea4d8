//! Rendering a record into the single human-readable line that is written to
//! the event-recording facility: `"{file}({line}): {LEVEL} - {message}"`.

use vstd::prelude::*;
use crate::level::Level;
use crate::record::Record;

verus! {

/// One decimal digit, as text.
pub open spec fn dec_digit(d: nat) -> Seq<char>
    recommends
        d < 10,
{
    if d == 0 {
        "0"@
    } else if d == 1 {
        "1"@
    } else if d == 2 {
        "2"@
    } else if d == 3 {
        "3"@
    } else if d == 4 {
        "4"@
    } else if d == 5 {
        "5"@
    } else if d == 6 {
        "6"@
    } else if d == 7 {
        "7"@
    } else if d == 8 {
        "8"@
    } else {
        "9"@
    }
}

/// The decimal numeral of `n`, most significant digit first, with no sign
/// and no leading zero except for `n == 0` itself.
pub open spec fn dec_str(n: nat) -> Seq<char>
    decreases n,
{
    if n < 10 {
        dec_digit(n)
    } else {
        dec_str(n / 10) + dec_digit(n % 10)
    }
}

/// The file part of the rendered line: the file name when the record carries
/// one, a fixed placeholder otherwise.
pub open spec fn file_text(file: Option<Seq<char>>) -> Seq<char> {
    match file {
        Option::Some(f) => f,
        Option::None => "<unknown>"@,
    }
}

/// The line part of the rendered line: the line number when the record
/// carries one, zero otherwise.
pub open spec fn line_number(line: Option<u32>) -> u32 {
    match line {
        Option::Some(n) => n,
        Option::None => 0,
    }
}

/// The level's upper-case name, as the facade prints it.
pub open spec fn level_text(level: Level) -> Seq<char> {
    match level {
        Level::Trace => "TRACE"@,
        Level::Debug => "DEBUG"@,
        Level::Info => "INFO"@,
        Level::Warn => "WARN"@,
        Level::Error => "ERROR"@,
    }
}

/// The full line written for a record:
/// `"{file}({line}): {LEVEL} - {message}"`.
pub open spec fn rendered_line(rec: Record) -> Seq<char> {
    file_text(match rec.file {
        Option::Some(f) => Option::Some(f@),
        Option::None => Option::None,
    }) + "("@ + dec_str(line_number(rec.line) as nat) + "): "@ + level_text(rec.level) + " - "@
        + rec.message@
}

/// Holds when `s` has no nul character anywhere before its final character,
/// so that `s` survives conversion to a nul-terminated wide string.
pub open spec fn nul_free_interior(s: Seq<char>) -> bool {
    forall|i: int| 0 <= i < s.len() - 1 ==> s[i] != '\0'
}

/// Holds when `s` has no nul character at all.
pub open spec fn nul_free(s: Seq<char>) -> bool {
    !s.contains('\0')
}

fn digit_str(d: u32) -> (s: &'static str)
    requires
        d < 10,
    ensures
        s@ == dec_digit(d as nat),
{
    if d == 0 {
        "0"
    } else if d == 1 {
        "1"
    } else if d == 2 {
        "2"
    } else if d == 3 {
        "3"
    } else if d == 4 {
        "4"
    } else if d == 5 {
        "5"
    } else if d == 6 {
        "6"
    } else if d == 7 {
        "7"
    } else if d == 8 {
        "8"
    } else {
        "9"
    }
}

/// Appends the decimal numeral of `n` to `s`.
fn push_decimal(s: &mut String, n: u32)
    ensures
        final(s)@ == old(s)@ + dec_str(n as nat),
    decreases n,
{
    if n < 10 {
        s.append(digit_str(n));
    } else {
        push_decimal(s, n / 10);
        s.append(digit_str(n % 10));
        proof {
            assert(final(s)@ =~= old(s)@ + dec_str(n as nat));
        }
    }
}

/// Renders a record into the one line submitted to the facility.
pub fn format_record(rec: &Record) -> (s: String)
    ensures
        s@ == rendered_line(*rec),
{
    let mut s = String::new();
    match &rec.file {
        Option::Some(f) => s.append(f.as_str()),
        Option::None => s.append("<unknown>"),
    }
    s.append("(");
    let n: u32 = match rec.line {
        Option::Some(n) => n,
        Option::None => 0,
    };
    push_decimal(&mut s, n);
    s.append("): ");
    s.append(level_str(rec.level));
    s.append(" - ");
    s.append(rec.message.as_str());
    proof {
        assert(s@ =~= rendered_line(*rec));
    }
    s
}

/// The level's upper-case name.
pub fn level_str(level: Level) -> (s: &'static str)
    ensures
        s@ == level_text(level),
{
    match level {
        Level::Trace => "TRACE",
        Level::Debug => "DEBUG",
        Level::Info => "INFO",
        Level::Warn => "WARN",
        Level::Error => "ERROR",
    }
}

/// No character of a decimal numeral is the nul character.
pub proof fn lemma_dec_str_no_nul(n: nat)
    ensures
        nul_free(dec_str(n)),
    decreases n,
{
    reveal_strlit("0");
    reveal_strlit("1");
    reveal_strlit("2");
    reveal_strlit("3");
    reveal_strlit("4");
    reveal_strlit("5");
    reveal_strlit("6");
    reveal_strlit("7");
    reveal_strlit("8");
    reveal_strlit("9");
    if n < 10 {
        assert(dec_digit(n).len() == 1);
        assert(dec_digit(n)[0] != '\0');
        assert(!dec_str(n).contains('\0'));
    } else {
        lemma_dec_str_no_nul(n / 10);
        assert forall|i: int| 0 <= i < dec_str(n).len() implies dec_str(n)[i] != '\0' by {
            let head = dec_str(n / 10);
            let tail = dec_digit(n % 10);
            if i < head.len() {
                assert(head[i] != '\0') by {
                    if head[i] == '\0' {
                        assert(head.contains('\0'));
                    }
                }
            } else {
                assert(dec_str(n)[i] == tail[i - head.len()]);
            }
        }
        assert(!dec_str(n).contains('\0'));
    }
}

/// No character of a level's name is the nul character.
pub proof fn lemma_level_text_no_nul(level: Level)
    ensures
        nul_free(level_text(level)),
{
    reveal_strlit("TRACE");
    reveal_strlit("DEBUG");
    reveal_strlit("INFO");
    reveal_strlit("WARN");
    reveal_strlit("ERROR");
    assert forall|i: int| 0 <= i < level_text(level).len() implies level_text(level)[i] != '\0'
        by {}
    assert(!level_text(level).contains('\0'));
}

proof fn lemma_nul_free_concat(a: Seq<char>, b: Seq<char>)
    requires
        nul_free(a),
        nul_free(b),
    ensures
        nul_free(a + b),
{
    assert forall|i: int| 0 <= i < (a + b).len() implies (a + b)[i] != '\0' by {
        if i < a.len() {
            assert((a + b)[i] == a[i]);
            if a[i] == '\0' {
                assert(a.contains('\0'));
            }
        } else {
            assert((a + b)[i] == b[i - a.len()]);
            if b[i - a.len()] == '\0' {
                assert(b.contains('\0'));
            }
        }
    }
    if (a + b).contains('\0') {
        let i = choose|i: int| 0 <= i < (a + b).len() && (a + b)[i] == '\0';
        assert((a + b)[i] != '\0');
    }
}

/// For an encodable record the rendered line has no nul character before its
/// final character, so its wide-string conversion cannot fail.
pub proof fn lemma_rendered_encodable(rec: Record)
    requires
        rec.encodable(),
    ensures
        nul_free_interior(rendered_line(rec)),
{
    reveal_strlit("<unknown>");
    reveal_strlit("(");
    reveal_strlit("): ");
    reveal_strlit(" - ");
    let file = file_text(match rec.file {
        Option::Some(f) => Option::Some(f@),
        Option::None => Option::None,
    });
    assert(nul_free(file)) by {
        match rec.file {
            Option::Some(f) => {
                assert(file == f@);
            },
            Option::None => {
                assert forall|i: int| 0 <= i < file.len() implies file[i] != '\0' by {}
                if file.contains('\0') {
                    let i = choose|i: int| 0 <= i < file.len() && file[i] == '\0';
                    assert(file[i] != '\0');
                }
            },
        }
    }
    assert(nul_free("("@)) by {
        if ("("@).contains('\0') {
            let i = choose|i: int| 0 <= i < ("("@).len() && ("("@)[i] == '\0';
        }
    }
    assert(nul_free("): "@)) by {
        if ("): "@).contains('\0') {
            let i = choose|i: int| 0 <= i < ("): "@).len() && ("): "@)[i] == '\0';
        }
    }
    assert(nul_free(" - "@)) by {
        if (" - "@).contains('\0') {
            let i = choose|i: int| 0 <= i < (" - "@).len() && (" - "@)[i] == '\0';
        }
    }
    lemma_dec_str_no_nul(line_number(rec.line) as nat);
    lemma_level_text_no_nul(rec.level);
    let prefix = file + "("@ + dec_str(line_number(rec.line) as nat) + "): "@ + level_text(
        rec.level,
    ) + " - "@;
    lemma_nul_free_concat(file, "("@);
    lemma_nul_free_concat(file + "("@, dec_str(line_number(rec.line) as nat));
    lemma_nul_free_concat(file + "("@ + dec_str(line_number(rec.line) as nat), "): "@);
    lemma_nul_free_concat(
        file + "("@ + dec_str(line_number(rec.line) as nat) + "): "@,
        level_text(rec.level),
    );
    lemma_nul_free_concat(
        file + "("@ + dec_str(line_number(rec.line) as nat) + "): "@ + level_text(rec.level),
        " - "@,
    );
    let line = rendered_line(rec);
    assert(line =~= prefix + rec.message@);
    assert forall|i: int| 0 <= i < line.len() - 1 implies line[i] != '\0' by {
        if i < prefix.len() {
            assert(line[i] == prefix[i]);
            if prefix[i] == '\0' {
                assert(prefix.contains('\0'));
            }
        } else {
            let j = i - prefix.len();
            assert(line[i] == rec.message@[j]);
            assert(j < rec.message@.len() - 1);
        }
    }
}

} // verus!
