//! The four field-rendering rules shared by every section: optional scalar,
//! space-joined list, per-line list, and yes/no boolean.  Absent fields never
//! produce a line.

use crate::text::dec_text;
use crate::text::int_text;
use crate::text::i32_string;
use crate::text::join_spaced;
use crate::text::join_spaced_exec;
use crate::text::texts_of;
use crate::text::u64_string;
use vstd::prelude::*;
use vstd::string::StringExecFns;

verus! {

/// One `Key=value` line, newline-terminated.
pub open spec fn line_text(key: Seq<char>, value: Seq<char>) -> Seq<char> {
    key + "="@ + value + "\n"@
}

pub open spec fn opt_text(field: Option<String>) -> Option<Seq<char>> {
    match field {
        None => None,
        Some(s) => Some(s@),
    }
}

pub open spec fn opt_texts(field: Option<Vec<String>>) -> Option<Seq<Seq<char>>> {
    match field {
        None => None,
        Some(v) => Some(texts_of(v@)),
    }
}

pub open spec fn opt_u64_text(field: Option<u64>) -> Option<Seq<char>> {
    match field {
        None => None,
        Some(n) => Some(dec_text(n as nat)),
    }
}

pub open spec fn opt_u32_text(field: Option<u32>) -> Option<Seq<char>> {
    match field {
        None => None,
        Some(n) => Some(dec_text(n as nat)),
    }
}

pub open spec fn opt_u8_text(field: Option<u8>) -> Option<Seq<char>> {
    match field {
        None => None,
        Some(n) => Some(dec_text(n as nat)),
    }
}

pub open spec fn opt_i32_text(field: Option<i32>) -> Option<Seq<char>> {
    match field {
        None => None,
        Some(n) => Some(int_text(n as int)),
    }
}

/// Scalar rule: a present value gives one line, an absent one gives nothing.
pub open spec fn scalar_text(key: Seq<char>, field: Option<Seq<char>>) -> Seq<char> {
    match field {
        None => Seq::<char>::empty(),
        Some(v) => line_text(key, v),
    }
}

/// Space-joined rule: a present, non-empty list gives one line holding the
/// values joined by single spaces; an absent or empty list gives nothing.
pub open spec fn list_text(key: Seq<char>, field: Option<Seq<Seq<char>>>) -> Seq<char> {
    match field {
        None => Seq::<char>::empty(),
        Some(vs) => if vs.len() == 0 {
            Seq::<char>::empty()
        } else {
            line_text(key, join_spaced(vs))
        },
    }
}

pub open spec fn lines_text(key: Seq<char>, vs: Seq<Seq<char>>) -> Seq<char>
    decreases vs.len(),
{
    if vs.len() == 0 {
        Seq::<char>::empty()
    } else {
        lines_text(key, vs.drop_last()) + line_text(key, vs.last())
    }
}

/// Per-line rule: a present list gives one line per element, in order,
/// duplicates preserved; an absent list gives nothing.
pub open spec fn multi_text(key: Seq<char>, field: Option<Seq<Seq<char>>>) -> Seq<char> {
    match field {
        None => Seq::<char>::empty(),
        Some(vs) => lines_text(key, vs),
    }
}

/// Boolean rule: `true` renders as `yes`, `false` as `no`.
pub open spec fn bool_text(key: Seq<char>, field: Option<bool>) -> Seq<char> {
    match field {
        None => Seq::<char>::empty(),
        Some(b) => line_text(key, if b { "yes"@ } else { "no"@ }),
    }
}

/// An absent field renders no line at all, under every one of the four
/// rendering rules.
pub proof fn lemma_absent_field_renders_nothing(key: Seq<char>)
    ensures
        scalar_text(key, None) == Seq::<char>::empty(),
        list_text(key, None) == Seq::<char>::empty(),
        multi_text(key, None) == Seq::<char>::empty(),
        bool_text(key, None) == Seq::<char>::empty(),
{
}

/// Under the space-joined rule, a present but empty list also renders no
/// line, and a two-element list renders exactly one `Key=a b` line.
pub proof fn lemma_space_joined_lines(key: Seq<char>, a: Seq<char>, b: Seq<char>)
    ensures
        list_text(key, Some(Seq::<Seq<char>>::empty())) == Seq::<char>::empty(),
        list_text(key, Some(seq![a, b])) == key + "="@ + a + " "@ + b + "\n"@,
{
    reveal_with_fuel(crate::text::join_spaced, 3);
    assert(seq![a, b].drop_last() =~= seq![a]);
    assert(join_spaced(seq![a, b]) == join_spaced(seq![a]) + " "@ + b);
    assert(list_text(key, Some(seq![a, b])) =~= key + "="@ + a + " "@ + b + "\n"@);
}

/// Under the per-line rule, a two-element list renders exactly two lines,
/// one per element, in order.
pub proof fn lemma_per_line_lines(key: Seq<char>, a: Seq<char>, b: Seq<char>)
    ensures
        multi_text(key, Some(seq![a, b])) == key + "="@ + a + "\n"@ + key + "="@ + b + "\n"@,
{
    reveal_with_fuel(lines_text, 3);
    assert(seq![a, b].drop_last() =~= seq![a]);
    assert(seq![a].drop_last() =~= Seq::<Seq<char>>::empty());
    assert(lines_text(key, seq![a]) == lines_text(key, Seq::<Seq<char>>::empty()) + line_text(
        key,
        a,
    ));
    assert(multi_text(key, Some(seq![a, b])) =~= key + "="@ + a + "\n"@ + key + "="@ + b
        + "\n"@);
}

/// Under the boolean rule, `true` renders `Key=yes`, `false` renders
/// `Key=no`, and an unset field renders no line.
pub proof fn lemma_bool_lines(key: Seq<char>)
    ensures
        bool_text(key, Some(true)) == key + "="@ + "yes"@ + "\n"@,
        bool_text(key, Some(false)) == key + "="@ + "no"@ + "\n"@,
        bool_text(key, None) == Seq::<char>::empty(),
{
}

pub fn write_line(buf: &mut String, key: &str, value: &str)
    ensures
        final(buf)@ == old(buf)@ + line_text(key@, value@),
{
    buf.append(key);
    buf.append("=");
    buf.append(value);
    buf.append("\n");
    proof {
        assert(buf@ =~= old(buf)@ + line_text(key@, value@));
    }
}

pub fn write_scalar(buf: &mut String, key: &str, field: &Option<String>)
    ensures
        final(buf)@ == old(buf)@ + scalar_text(key@, opt_text(*field)),
{
    match field {
        None => {
            proof {
                assert(old(buf)@ + Seq::<char>::empty() =~= old(buf)@);
            }
        },
        Some(v) => {
            write_line(buf, key, v.as_str());
        },
    }
}

pub fn write_list(buf: &mut String, key: &str, field: &Option<Vec<String>>)
    ensures
        final(buf)@ == old(buf)@ + list_text(key@, opt_texts(*field)),
{
    match field {
        None => {
            proof {
                assert(old(buf)@ + Seq::<char>::empty() =~= old(buf)@);
            }
        },
        Some(items) => {
            if items.len() > 0 {
                let joined = join_spaced_exec(items);
                write_line(buf, key, joined.as_str());
            } else {
                proof {
                    assert(old(buf)@ + Seq::<char>::empty() =~= old(buf)@);
                }
            }
        },
    }
}

pub fn write_multi(buf: &mut String, key: &str, field: &Option<Vec<String>>)
    ensures
        final(buf)@ == old(buf)@ + multi_text(key@, opt_texts(*field)),
{
    match field {
        None => {
            proof {
                assert(old(buf)@ + Seq::<char>::empty() =~= old(buf)@);
            }
        },
        Some(items) => {
            let ghost buf0 = buf@;
            let mut i: usize = 0;
            while i < items.len()
                invariant
                    0 <= i <= items@.len(),
                    buf@ == buf0 + lines_text(key@, texts_of(items@).take(i as int)),
                decreases items@.len() - i,
            {
                write_line(buf, key, items[i].as_str());
                proof {
                    let views = texts_of(items@);
                    assert(views.take(i + 1).drop_last() =~= views.take(i as int));
                    assert(views.take(i + 1).last() == views[i as int]);
                }
                i += 1;
            }
            proof {
                assert(texts_of(items@).take(items@.len() as int) =~= texts_of(items@));
            }
        },
    }
}

pub fn write_bool(buf: &mut String, key: &str, field: &Option<bool>)
    ensures
        final(buf)@ == old(buf)@ + bool_text(key@, *field),
{
    match field {
        None => {
            proof {
                assert(old(buf)@ + Seq::<char>::empty() =~= old(buf)@);
            }
        },
        Some(b) => {
            if *b {
                write_line(buf, key, "yes");
            } else {
                write_line(buf, key, "no");
            }
        },
    }
}

pub fn write_u64(buf: &mut String, key: &str, field: &Option<u64>)
    ensures
        final(buf)@ == old(buf)@ + scalar_text(key@, opt_u64_text(*field)),
{
    match field {
        None => {
            proof {
                assert(old(buf)@ + Seq::<char>::empty() =~= old(buf)@);
            }
        },
        Some(n) => {
            let s = u64_string(*n);
            write_line(buf, key, s.as_str());
        },
    }
}

pub fn write_u32(buf: &mut String, key: &str, field: &Option<u32>)
    ensures
        final(buf)@ == old(buf)@ + scalar_text(key@, opt_u32_text(*field)),
{
    match field {
        None => {
            proof {
                assert(old(buf)@ + Seq::<char>::empty() =~= old(buf)@);
            }
        },
        Some(n) => {
            let s = u64_string(*n as u64);
            write_line(buf, key, s.as_str());
        },
    }
}

pub fn write_u8(buf: &mut String, key: &str, field: &Option<u8>)
    ensures
        final(buf)@ == old(buf)@ + scalar_text(key@, opt_u8_text(*field)),
{
    match field {
        None => {
            proof {
                assert(old(buf)@ + Seq::<char>::empty() =~= old(buf)@);
            }
        },
        Some(n) => {
            let s = u64_string(*n as u64);
            write_line(buf, key, s.as_str());
        },
    }
}

pub fn write_i32(buf: &mut String, key: &str, field: &Option<i32>)
    ensures
        final(buf)@ == old(buf)@ + scalar_text(key@, opt_i32_text(*field)),
{
    match field {
        None => {
            proof {
                assert(old(buf)@ + Seq::<char>::empty() =~= old(buf)@);
            }
        },
        Some(n) => {
            let s = i32_string(*n);
            write_line(buf, key, s.as_str());
        },
    }
}

} // verus!
