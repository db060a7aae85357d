//! The name sanitizer: walks the raw bytes of one path component, routing
//! stand-alone ASCII bytes through the byte policy and multi-byte sequences
//! through the decoder and the transliteration table, while threading the
//! one piece of state — whether the last emission was a collapse placeholder.

use crate::decode::convert_four_to_u32;
use crate::decode::convert_three_to_u32;
use crate::decode::convert_two_to_u32;
use crate::decode::lead_width;
use crate::decode::spec_decode_four;
use crate::decode::spec_decode_three;
use crate::decode::spec_decode_two;
use crate::decode::spec_lead_width;
use crate::table::Fold;
use crate::table::fold_scalar;
use crate::table::spec_fold_scalar;
use vstd::prelude::*;

verus! {

/// The ASCII policy: what a stand-alone byte below 128 turns into.
/// Letters, digits, the hyphen and the period pass through literally;
/// everything else collapses to a de-duplicated underscore.
pub open spec fn spec_ascii_fold(b: u8) -> Fold {
    if b <= 44 {
        Fold::Collapse
    } else if b == 46 {
        Fold::One(46)
    } else if b == 47 {
        Fold::Collapse
    } else if 58 <= b && b <= 64 {
        Fold::Collapse
    } else if 91 <= b && b <= 96 {
        Fold::Collapse
    } else if 123 <= b {
        Fold::Collapse
    } else {
        Fold::One(b)
    }
}

/// The bytes emitted for the action `f` when the previous emission was a
/// collapse placeholder iff `last`: a collapse emits its underscore only
/// after a non-collapse emission.
pub open spec fn spec_emit(f: Fold, last: bool) -> Seq<u8> {
    match f {
        Fold::One(x) => seq![x],
        Fold::Two(x, y) => seq![x, y],
        Fold::Silent => Seq::empty(),
        Fold::Hyphen => seq![45u8],
        Fold::Collapse => if last {
            Seq::empty()
        } else {
            seq![95u8]
        },
    }
}

/// The collapse state after the action `f`: a collapse sets it, a silent
/// action leaves it untouched, every emission clears it.
pub open spec fn spec_next_last(f: Fold, last: bool) -> bool {
    match f {
        Fold::Collapse => true,
        Fold::Silent => last,
        _ => false,
    }
}

/// The action taken for one decoded value, with `None` standing for the
/// undecodable sentinel, which is recovered from by collapsing.
pub open spec fn spec_fold_opt(c: Option<char>) -> Fold {
    match c {
        Some(ch) => spec_fold_scalar(ch as u32),
        None => Fold::Collapse,
    }
}

/// The value decoded from the sequence that starts at `i`, whose width is
/// read from the leading byte `s[i]`.
pub open spec fn spec_decode_at(s: Seq<u8>, i: int) -> u32 {
    if spec_lead_width(s[i]) == 2 {
        spec_decode_two(s[i], s[i + 1])
    } else if spec_lead_width(s[i]) == 3 {
        spec_decode_three(s[i], s[i + 1], s[i + 2])
    } else {
        spec_decode_four(s[i], s[i + 1], s[i + 2], s[i + 3])
    }
}

/// The sanitized tail of `s` from position `i` on, entered with collapse
/// state `last`. A trailing sequence cut short by the end of the component
/// emits nothing.
pub open spec fn spec_clean_from(s: Seq<u8>, i: int, last: bool) -> Seq<u8>
    decreases s.len() - i,
{
    if i < 0 || i >= s.len() {
        Seq::empty()
    } else if s[i] < 128 {
        let f = spec_ascii_fold(s[i]);
        spec_emit(f, last) + spec_clean_from(s, i + 1, spec_next_last(f, last))
    } else {
        let n = spec_lead_width(s[i]);
        if i + n > s.len() {
            Seq::empty()
        } else {
            let f = spec_fold_scalar(spec_decode_at(s, i));
            spec_emit(f, last) + spec_clean_from(s, i + n, spec_next_last(f, last))
        }
    }
}

/// The sanitized form of one whole path component.
pub open spec fn spec_clean(s: Seq<u8>) -> Seq<u8> {
    spec_clean_from(s, 0, false)
}

/// The ASCII policy on one stand-alone byte below 128.
pub fn ascii_fold(b: u8) -> (f: Fold)
    requires
        b < 128,
    ensures
        f == spec_ascii_fold(b),
{
    if b <= 44 {
        Fold::Collapse
    } else if b == 46 {
        Fold::One(46)
    } else if b == 47 {
        Fold::Collapse
    } else if 58 <= b && b <= 64 {
        Fold::Collapse
    } else if 91 <= b && b <= 96 {
        Fold::Collapse
    } else if 123 <= b {
        Fold::Collapse
    } else {
        Fold::One(b)
    }
}

/// Append the emission of the action `f` to the name built so far and hand
/// back the new collapse state.
pub fn apply_fold(f: Fold, name_acc: &mut Vec<u8>, last_was_under: bool) -> (r: bool)
    ensures
        final(name_acc)@ == old(name_acc)@ + spec_emit(f, last_was_under),
        r == spec_next_last(f, last_was_under),
{
    let ghost acc0 = name_acc@;
    match f {
        Fold::One(x) => {
            name_acc.push(x);
            proof {
                assert(name_acc@ =~= acc0 + spec_emit(f, last_was_under));
            }
            false
        },
        Fold::Two(x, y) => {
            name_acc.push(x);
            name_acc.push(y);
            proof {
                assert(name_acc@ =~= acc0 + spec_emit(f, last_was_under));
            }
            false
        },
        Fold::Silent => {
            proof {
                assert(name_acc@ =~= acc0 + spec_emit(f, last_was_under));
            }
            last_was_under
        },
        Fold::Hyphen => {
            name_acc.push(45);
            proof {
                assert(name_acc@ =~= acc0 + spec_emit(f, last_was_under));
            }
            false
        },
        Fold::Collapse => {
            if !last_was_under {
                name_acc.push(95);
            }
            proof {
                assert(name_acc@ =~= acc0 + spec_emit(f, last_was_under));
            }
            true
        },
    }
}

/// Route one decoded value — or `None`, the undecodable sentinel — through
/// the transliteration table, appending its emission to the name built so
/// far; hands back whether that emission was a collapse placeholder.
pub fn check_similar(curr_char: Option<char>, name_acc: &mut Vec<u8>, last_was_under: bool) -> (r:
    bool)
    ensures
        final(name_acc)@ == old(name_acc)@ + spec_emit(spec_fold_opt(curr_char), last_was_under),
        r == spec_next_last(spec_fold_opt(curr_char), last_was_under),
{
    match curr_char {
        Some(one_char) => {
            let f = fold_scalar(one_char as u32);
            apply_fold(f, name_acc, last_was_under)
        },
        None => apply_fold(Fold::Collapse, name_acc, last_was_under),
    }
}

/// Sanitize one path component: the sole signal for whether a rename is
/// needed is byte-for-byte inequality of the result with the input.
#[verifier::rlimit(60)]
pub fn clean_name(name: &Vec<u8>) -> (out: Vec<u8>)
    ensures
        out@ == spec_clean(name@),
{
    let mut out: Vec<u8> = Vec::new();
    let mut last = false;
    let mut i: usize = 0;
    while i < name.len()
        invariant
            i <= name.len(),
            spec_clean(name@) == out@ + spec_clean_from(name@, i as int, last),
        decreases name.len() - i,
    {
        let ghost i0 = i as int;
        let ghost last0 = last;
        let ghost out0 = out@;
        let b = name[i];
        if b < 128 {
            let f = ascii_fold(b);
            last = apply_fold(f, &mut out, last);
            i = i + 1;
            proof {
                assert(spec_clean_from(name@, i0, last0) == spec_emit(f, last0)
                    + spec_clean_from(name@, i as int, last));
                assert(out0 + spec_emit(f, last0) + spec_clean_from(name@, i as int, last) =~= out0
                    + (spec_emit(f, last0) + spec_clean_from(name@, i as int, last)));
            }
        } else {
            let n = lead_width(b);
            if n > name.len() - i {
                proof {
                    assert(spec_clean_from(name@, i0, last0) =~= Seq::<u8>::empty());
                    assert(out@ + Seq::<u8>::empty() =~= out@);
                }
                return out;
            }
            let u = if n == 2 {
                convert_two_to_u32(name[i], name[i + 1])
            } else if n == 3 {
                convert_three_to_u32(name[i], name[i + 1], name[i + 2])
            } else {
                convert_four_to_u32(name[i], name[i + 1], name[i + 2], name[i + 3])
            };
            proof {
                assert(u == spec_decode_at(name@, i0));
            }
            let f = fold_scalar(u);
            last = apply_fold(f, &mut out, last);
            i = i + n;
            proof {
                assert(spec_clean_from(name@, i0, last0) == spec_emit(f, last0)
                    + spec_clean_from(name@, i as int, last));
                assert(out0 + spec_emit(f, last0) + spec_clean_from(name@, i as int, last) =~= out0
                    + (spec_emit(f, last0) + spec_clean_from(name@, i as int, last)));
            }
        }
    }
    proof {
        assert(spec_clean_from(name@, i as int, last) =~= Seq::<u8>::empty());
        assert(out@ + Seq::<u8>::empty() =~= out@);
    }
    out
}

/// A byte that passes through the sanitizer literally: a letter, a digit,
/// the hyphen or the period.
pub open spec fn spec_is_literal_byte(b: u8) -> bool {
    b == 45 || b == 46 || (48 <= b && b <= 57) || (65 <= b && b <= 90) || (97 <= b && b <= 122)
}

/// A stand-alone byte that triggers a collapse to the placeholder.
pub open spec fn spec_is_collapse_byte(b: u8) -> bool {
    b < 128 && spec_ascii_fold(b) is Collapse
}

/// The byte string holds no two consecutive collapse placeholders — the
/// invariant every sanitized name keeps.
pub open spec fn spec_no_double_underscore(s: Seq<u8>) -> bool {
    forall|k: int| 0 <= k && k + 1 < s.len() ==> !((#[trigger] s[k]) == 95 && s[k + 1] == 95)
}

/// Idempotence on the literal classes: a component made only of bytes that
/// pass through literally sanitizes to itself, byte for byte.
pub proof fn lemma_literal_component_unchanged(s: Seq<u8>)
    requires
        forall|k: int| 0 <= k < s.len() ==> spec_is_literal_byte(#[trigger] s[k]),
    ensures
        spec_clean(s) == s,
{
    lemma_literal_tail_unchanged(s, 0, false);
    assert(s.subrange(0, s.len() as int) =~= s);
}

/// The tail form of the idempotence law, for any entry state.
proof fn lemma_literal_tail_unchanged(s: Seq<u8>, i: int, last: bool)
    requires
        0 <= i <= s.len(),
        forall|k: int| i <= k < s.len() ==> spec_is_literal_byte(#[trigger] s[k]),
    ensures
        spec_clean_from(s, i, last) == s.subrange(i, s.len() as int),
    decreases s.len() - i,
{
    if i >= s.len() {
        assert(s.subrange(i, s.len() as int) =~= Seq::<u8>::empty());
    } else {
        lemma_literal_tail_unchanged(s, i + 1, false);
        assert(seq![s[i]] + s.subrange(i + 1, s.len() as int) =~= s.subrange(i, s.len() as int));
    }
}

/// Determinism: the sanitized form is a function of the component's bytes
/// alone — no state hides between runs or between components, so equal
/// components sanitize byte-identically.
pub proof fn lemma_clean_deterministic(a: Seq<u8>, b: Seq<u8>)
    requires
        a == b,
    ensures
        spec_clean(a) == spec_clean(b),
{
}

/// The bytes `i..j` of `s` are a seamless run of collapse triggers: each
/// step from `i` on is either a stand-alone collapse byte or a complete
/// multi-byte sequence whose decoded value the table does not recognize,
/// and the steps land exactly on `j`.
pub open spec fn spec_collapse_run(s: Seq<u8>, i: int, j: int) -> bool
    decreases j - i,
{
    i >= j || (if s[i] < 128 {
        spec_ascii_fold(s[i]) is Collapse && spec_collapse_run(s, i + 1, j)
    } else {
        let n = spec_lead_width(s[i]);
        &&& i + n <= j
        &&& spec_fold_scalar(spec_decode_at(s, i)) is Collapse
        &&& spec_collapse_run(s, i + n, j)
    })
}

/// Collapse de-duplication: a run of consecutive collapse triggers — bytes
/// of the collapse ranges or unrecognized decoded values — however long,
/// contributes exactly one placeholder when the previous emission was
/// none, and nothing at all otherwise.
pub proof fn lemma_collapse_run_dedup(s: Seq<u8>, i: int, j: int, last: bool)
    requires
        0 <= i < j <= s.len(),
        spec_collapse_run(s, i, j),
    ensures
        !last ==> spec_clean_from(s, i, last) == seq![95u8] + spec_clean_from(s, j, true),
        last ==> spec_clean_from(s, i, last) == spec_clean_from(s, j, true),
    decreases j - i,
{
    let step = if s[i] < 128 {
        1int
    } else {
        spec_lead_width(s[i])
    };
    let rest = spec_clean_from(s, i + step, true);
    if i + step < j {
        lemma_collapse_run_dedup(s, i + step, j, true);
    }
    if !last {
        assert(spec_clean_from(s, i, last) =~= seq![95u8] + rest);
    } else {
        assert(spec_clean_from(s, i, last) =~= rest);
    }
}

/// A run of stand-alone collapse bytes is a collapse run.
pub proof fn lemma_collapse_bytes_are_a_run(s: Seq<u8>, i: int, j: int)
    requires
        0 <= i <= j <= s.len(),
        forall|k: int| i <= k < j ==> spec_is_collapse_byte(#[trigger] s[k]),
    ensures
        spec_collapse_run(s, i, j),
    decreases j - i,
{
    if i < j {
        lemma_collapse_bytes_are_a_run(s, i + 1, j);
    }
}

/// Period invariant: a literal period always appears unchanged at its
/// relative position and resets the collapse state, whatever preceded it.
pub proof fn lemma_period_literal(s: Seq<u8>, i: int, last: bool)
    requires
        0 <= i < s.len(),
        s[i] == 46,
    ensures
        spec_clean_from(s, i, last) == seq![46u8] + spec_clean_from(s, i + 1, false),
{
}

/// En-dash exception: the three-byte encoding of U+2013 always yields a
/// literal hyphen, which resets the collapse state and is never merged
/// with an adjacent collapse placeholder.
pub proof fn lemma_en_dash_hyphen(s: Seq<u8>, i: int, last: bool)
    requires
        0 <= i,
        i + 3 <= s.len(),
        s[i] == 0xe2,
        s[i + 1] == 0x80,
        s[i + 2] == 0x93,
    ensures
        spec_clean_from(s, i, last) == seq![45u8] + spec_clean_from(s, i + 3, false),
{
    let b0 = s[i];
    let b1 = s[i + 1];
    let b2 = s[i + 2];
    assert(spec_decode_three(b0, b1, b2) == 0x2013u32) by (bit_vector)
        requires
            b0 == 0xe2u8 && b1 == 0x80u8 && b2 == 0x93u8,
    ;
}

/// No output of the sanitizer holds two consecutive collapse placeholders:
/// collapsing is idempotent within one run.
pub proof fn lemma_no_double_underscore(s: Seq<u8>)
    ensures
        spec_no_double_underscore(spec_clean(s)),
{
    lemma_no_double_underscore_tail(s, 0, false);
}

/// Concatenating placeholder-free-of-doubles parts stays free of doubles
/// when a part ending in a placeholder is never followed by one.
proof fn lemma_concat_no_double(e: Seq<u8>, rest: Seq<u8>)
    requires
        spec_no_double_underscore(e),
        spec_no_double_underscore(rest),
        (e.len() > 0 && e[e.len() - 1] == 95 && rest.len() > 0) ==> rest[0] != 95,
    ensures
        spec_no_double_underscore(e + rest),
{
    assert forall|k: int| 0 <= k && k + 1 < (e + rest).len() implies !((#[trigger] (e + rest)[k])
        == 95 && (e + rest)[k + 1] == 95) by {
        if k + 1 < e.len() {
            assert((e + rest)[k] == e[k] && (e + rest)[k + 1] == e[k + 1]);
        } else if k + 1 == e.len() {
            assert((e + rest)[k] == e[k]);
        } else if k < e.len() {
            assert((e + rest)[k] == e[k] && (e + rest)[k + 1] == rest[0]);
        } else {
            assert((e + rest)[k] == rest[k - e.len()] && (e + rest)[k + 1] == rest[k + 1
                - e.len()]);
        }
    }
}

/// Every byte of a sanitized name is of the literal classes or the
/// collapse placeholder itself.
pub proof fn lemma_clean_output_classes(s: Seq<u8>)
    ensures
        forall|k: int|
            0 <= k < spec_clean(s).len() ==> spec_is_literal_byte(#[trigger] spec_clean(s)[k])
                || spec_clean(s)[k] == 95,
{
    lemma_output_classes_tail(s, 0, false);
}

/// A byte of the output alphabet: the literal classes or the placeholder.
spec fn spec_is_output_byte(b: u8) -> bool {
    spec_is_literal_byte(b) || b == 95
}

/// Concatenating byte strings over the output alphabet stays within it.
proof fn lemma_concat_classes(e: Seq<u8>, rest: Seq<u8>)
    requires
        forall|k: int| 0 <= k < e.len() ==> spec_is_output_byte(#[trigger] e[k]),
        forall|k: int| 0 <= k < rest.len() ==> spec_is_output_byte(#[trigger] rest[k]),
    ensures
        forall|k: int| 0 <= k < (e + rest).len() ==> spec_is_output_byte(#[trigger] (e + rest)[k]),
{
    assert forall|k: int| 0 <= k < (e + rest).len() implies spec_is_output_byte(
        #[trigger] (e + rest)[k],
    ) by {
        if k < e.len() {
            assert((e + rest)[k] == e[k]);
        } else {
            assert((e + rest)[k] == rest[k - e.len()]);
        }
    }
}

/// The inductive form of the output alphabet: every emitted byte is of the
/// literal classes or the placeholder.
proof fn lemma_output_classes_tail(s: Seq<u8>, i: int, last: bool)
    ensures
        forall|k: int|
            0 <= k < spec_clean_from(s, i, last).len() ==> spec_is_literal_byte(
                #[trigger] spec_clean_from(s, i, last)[k],
            ) || spec_clean_from(s, i, last)[k] == 95,
    decreases s.len() - i,
{
    if i < 0 || i >= s.len() {
    } else if s[i] < 128 {
        let f = spec_ascii_fold(s[i]);
        let e = spec_emit(f, last);
        let rest = spec_clean_from(s, i + 1, spec_next_last(f, last));
        lemma_output_classes_tail(s, i + 1, spec_next_last(f, last));
        lemma_concat_classes(e, rest);
        assert(spec_clean_from(s, i, last) == e + rest);
    } else {
        let n = spec_lead_width(s[i]);
        if i + n <= s.len() {
            let f = spec_fold_scalar(spec_decode_at(s, i));
            let e = spec_emit(f, last);
            let rest = spec_clean_from(s, i + n, spec_next_last(f, last));
            crate::table::lemma_fold_emits_letters(spec_decode_at(s, i));
            lemma_output_classes_tail(s, i + n, spec_next_last(f, last));
            lemma_concat_classes(e, rest);
            assert(spec_clean_from(s, i, last) == e + rest);
        }
    }
}

/// Idempotence in full: sanitizing is a fixed point on its own output —
/// a name that came out of the sanitizer goes through it unchanged.
pub proof fn lemma_clean_idempotent(s: Seq<u8>)
    ensures
        spec_clean(spec_clean(s)) == spec_clean(s),
{
    let w = spec_clean(s);
    lemma_clean_output_classes(s);
    lemma_no_double_underscore(s);
    lemma_clean_fixed_tail(w, 0, false);
    assert(w.subrange(0, w.len() as int) =~= w);
}

/// A byte string over the output alphabet with no doubled placeholder and
/// no placeholder right where a collapse just happened sanitizes to
/// itself.
proof fn lemma_clean_fixed_tail(s: Seq<u8>, i: int, last: bool)
    requires
        0 <= i <= s.len(),
        forall|k: int| 0 <= k < s.len() ==> spec_is_literal_byte(#[trigger] s[k]) || s[k] == 95,
        spec_no_double_underscore(s),
        last ==> (i == s.len() || s[i] != 95),
    ensures
        spec_clean_from(s, i, last) == s.subrange(i, s.len() as int),
    decreases s.len() - i,
{
    if i >= s.len() {
        assert(s.subrange(i, s.len() as int) =~= Seq::<u8>::empty());
    } else {
        if s[i] == 95 {
            lemma_clean_fixed_tail(s, i + 1, true);
        } else {
            lemma_clean_fixed_tail(s, i + 1, false);
        }
        assert(seq![s[i]] + s.subrange(i + 1, s.len() as int) =~= s.subrange(i, s.len() as int));
    }
}

/// The inductive form of the placeholder invariant: the sanitized tail is
/// free of consecutive placeholders, and starts with none when the last
/// emission already was one.
proof fn lemma_no_double_underscore_tail(s: Seq<u8>, i: int, last: bool)
    ensures
        spec_no_double_underscore(spec_clean_from(s, i, last)),
        (last && spec_clean_from(s, i, last).len() > 0) ==> spec_clean_from(s, i, last)[0] != 95,
    decreases s.len() - i,
{
    if i < 0 || i >= s.len() {
    } else if s[i] < 128 {
        let f = spec_ascii_fold(s[i]);
        let e = spec_emit(f, last);
        let l2 = spec_next_last(f, last);
        let rest = spec_clean_from(s, i + 1, l2);
        lemma_no_double_underscore_tail(s, i + 1, l2);
        lemma_concat_no_double(e, rest);
        if e.len() == 0 {
            assert(e + rest =~= rest);
        }
    } else {
        let n = spec_lead_width(s[i]);
        if i + n <= s.len() {
            let f = spec_fold_scalar(spec_decode_at(s, i));
            let e = spec_emit(f, last);
            let l2 = spec_next_last(f, last);
            let rest = spec_clean_from(s, i + n, l2);
            crate::table::lemma_fold_emits_letters(spec_decode_at(s, i));
            lemma_no_double_underscore_tail(s, i + n, l2);
            lemma_concat_no_double(e, rest);
            if e.len() == 0 {
                assert(e + rest =~= rest);
            }
        }
    }
}

} // verus!
