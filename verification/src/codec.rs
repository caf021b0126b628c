//! Serialization of computed values into transportable payloads.
//!
//! Two strategies exist, selected by a [`FormatTag`]:
//! - **Textual**: the value is rendered as canonical literal text; the
//!   emit pass re-embeds that text verbatim as a literal expression.
//! - **RawBytes**: the value's in-memory bytes are rendered as a
//!   comma-separated list inside brackets, re-embedded as a byte-array
//!   literal and reinterpreted bit-for-bit at the point of use.

use vstd::prelude::*;

use crate::FormatTag;
use crate::PipelineError;

verus! {

/// A computed value that the textual strategy can render as a literal.
#[derive(PartialEq, Eq, Structural, Clone, Copy, Debug)]
pub enum ConstValue {
    /// A signed integer result.
    Int(i64),
    /// A boolean result.
    Bool(bool),
}

/// The decimal digit character for `d` (which must be below ten).
pub open spec fn digit_char(d: nat) -> char {
    if d == 0 {
        '0'
    } else if d == 1 {
        '1'
    } else if d == 2 {
        '2'
    } else if d == 3 {
        '3'
    } else if d == 4 {
        '4'
    } else if d == 5 {
        '5'
    } else if d == 6 {
        '6'
    } else if d == 7 {
        '7'
    } else if d == 8 {
        '8'
    } else {
        '9'
    }
}

/// The decimal rendering of a natural number, most significant digit
/// first, with no leading zeros (a lone zero for `0`).
pub open spec fn spec_digits(n: nat) -> Seq<char>
    decreases n,
{
    if n < 10 {
        seq![digit_char(n)]
    } else {
        spec_digits(n / 10) + seq![digit_char(n % 10)]
    }
}

/// The canonical textual rendering of a signed integer.
pub open spec fn spec_render_int(n: int) -> Seq<char> {
    if n < 0 {
        seq!['-'] + spec_digits((-n) as nat)
    } else {
        spec_digits(n as nat)
    }
}

/// The canonical textual rendering of a boolean.
pub open spec fn spec_render_bool(b: bool) -> Seq<char> {
    if b {
        seq!['t', 'r', 'u', 'e']
    } else {
        seq!['f', 'a', 'l', 's', 'e']
    }
}

/// The canonical textual rendering of a computed value: exactly the
/// text that is a valid literal of the value's own type.
pub open spec fn spec_render_value(v: ConstValue) -> Seq<char> {
    match v {
        ConstValue::Int(n) => spec_render_int(n as int),
        ConstValue::Bool(b) => spec_render_bool(b),
    }
}

/// The comma-separated rendering of a byte sequence, without brackets.
pub open spec fn spec_render_byte_items(s: Seq<u8>) -> Seq<char>
    decreases s.len(),
{
    if s.len() == 0 {
        Seq::<char>::empty()
    } else if s.len() == 1 {
        spec_digits(s[0] as nat)
    } else {
        spec_render_byte_items(s.drop_last()) + seq![',', ' '] + spec_digits(s.last() as nat)
    }
}

/// The byte-array-literal rendering of a byte sequence: the
/// comma-separated byte values inside square brackets.
pub open spec fn spec_render_byte_list(s: Seq<u8>) -> Seq<char> {
    seq!['['] + spec_render_byte_items(s) + seq![']']
}

/// The number of comma characters in a text; the emit pass recovers
/// the element count of a byte-array literal from it.
pub open spec fn spec_count_commas(s: Seq<char>) -> nat
    decreases s.len(),
{
    if s.len() == 0 {
        0
    } else {
        spec_count_commas(s.drop_last()) + (if s.last() == ',' {
            1nat
        } else {
            0nat
        })
    }
}

/// The one-character string holding the decimal digit for `d`.
fn digit_str(d: u64) -> (r: &'static str)
    requires
        d < 10,
    ensures
        r@ == seq![digit_char(d as nat)],
{
    if d == 0 {
        proof {
            reveal_strlit("0");
            assert("0"@ =~= seq![digit_char(0)]);
        }
        "0"
    } else if d == 1 {
        proof {
            reveal_strlit("1");
            assert("1"@ =~= seq![digit_char(1)]);
        }
        "1"
    } else if d == 2 {
        proof {
            reveal_strlit("2");
            assert("2"@ =~= seq![digit_char(2)]);
        }
        "2"
    } else if d == 3 {
        proof {
            reveal_strlit("3");
            assert("3"@ =~= seq![digit_char(3)]);
        }
        "3"
    } else if d == 4 {
        proof {
            reveal_strlit("4");
            assert("4"@ =~= seq![digit_char(4)]);
        }
        "4"
    } else if d == 5 {
        proof {
            reveal_strlit("5");
            assert("5"@ =~= seq![digit_char(5)]);
        }
        "5"
    } else if d == 6 {
        proof {
            reveal_strlit("6");
            assert("6"@ =~= seq![digit_char(6)]);
        }
        "6"
    } else if d == 7 {
        proof {
            reveal_strlit("7");
            assert("7"@ =~= seq![digit_char(7)]);
        }
        "7"
    } else if d == 8 {
        proof {
            reveal_strlit("8");
            assert("8"@ =~= seq![digit_char(8)]);
        }
        "8"
    } else {
        proof {
            reveal_strlit("9");
            assert("9"@ =~= seq![digit_char(9)]);
        }
        "9"
    }
}

/// Appends the decimal rendering of `n` to `out`.
fn push_digits(n: u64, out: &mut String)
    ensures
        final (out)@ == old(out)@ + spec_digits(n as nat),
    decreases n,
{
    if n < 10 {
        out.append(digit_str(n));
    } else {
        push_digits(n / 10, out);
        let ghost mid = out@;
        out.append(digit_str(n % 10));
        proof {
            assert(spec_digits(n as nat) == spec_digits((n as nat) / 10) + seq![
                digit_char((n as nat) % 10),
            ]);
            assert(out@ =~= old(out)@ + spec_digits(n as nat));
        }
    }
}

/// Renders a signed integer as canonical decimal literal text.
pub fn render_int(n: i64) -> (r: String)
    ensures
        r@ == spec_render_int(n as int),
{
    let mut out = String::new();
    if n < 0 {
        out.append("-");
        let m: u64 = if n == i64::MIN {
            9223372036854775808u64
        } else {
            (-n) as u64
        };
        proof {
            assert(m as nat == (-(n as int)) as nat);
        }
        push_digits(m, &mut out);
        proof {
            reveal_strlit("-");
            assert(out@ =~= spec_render_int(n as int));
        }
    } else {
        push_digits(n as u64, &mut out);
        proof {
            assert(out@ =~= spec_render_int(n as int));
        }
    }
    out
}

/// Renders a computed value as canonical literal text.
pub fn render_value(v: &ConstValue) -> (r: String)
    ensures
        r@ == spec_render_value(*v),
{
    match v {
        ConstValue::Int(n) => render_int(*n),
        ConstValue::Bool(b) => {
            if *b {
                let out = String::from_str("true");
                proof {
                    reveal_strlit("true");
                    assert(out@ =~= spec_render_bool(true));
                }
                out
            } else {
                let out = String::from_str("false");
                proof {
                    reveal_strlit("false");
                    assert(out@ =~= spec_render_bool(false));
                }
                out
            }
        },
    }
}

/// Renders a byte sequence as a byte-array literal.
#[verifier::loop_isolation(false)]
pub fn render_byte_list(b: &Vec<u8>) -> (r: String)
    ensures
        r@ == spec_render_byte_list(b@),
{
    let mut out = String::from_str("[");
    proof {
        reveal_strlit("[");
        assert(out@ =~= seq!['['] + spec_render_byte_items(b@.take(0)));
    }
    let mut i: usize = 0;
    while i < b.len()
        invariant
            i <= b.len(),
            out@ == seq!['['] + spec_render_byte_items(b@.take(i as int)),
        decreases b.len() - i,
    {
        if i > 0 {
            out.append(", ");
            proof {
                reveal_strlit(", ");
            }
        }
        push_digits(b[i] as u64, &mut out);
        proof {
            let s = b@;
            let ii = i as int;
            assert(s.take(ii + 1).drop_last() =~= s.take(ii));
            assert(s.take(ii + 1).last() == s[ii]);
            if i == 0 {
                assert(spec_render_byte_items(s.take(1)) == spec_digits(s[0] as nat));
                assert(out@ =~= seq!['['] + spec_render_byte_items(s.take(ii + 1)));
            } else {
                assert(spec_render_byte_items(s.take(ii + 1)) == spec_render_byte_items(s.take(ii))
                    + seq![',', ' '] + spec_digits(s[ii] as nat));
                assert(out@ =~= seq!['['] + spec_render_byte_items(s.take(ii + 1)));
            }
        }
        i += 1;
    }
    out.append("]");
    proof {
        reveal_strlit("]");
        assert(b@.take(b@.len() as int) =~= b@);
        assert(out@ =~= spec_render_byte_list(b@));
    }
    out
}

/// Counts the comma characters in a string slice.
pub fn count_commas(s: &str) -> (r: usize)
    ensures
        r as nat == spec_count_commas(s@),
{
    let n = s.unicode_len();
    let mut i: usize = 0;
    let mut cnt: usize = 0;
    while i < n
        invariant
            i <= n,
            n == s@.len(),
            cnt <= i,
            cnt as nat == spec_count_commas(s@.take(i as int)),
        decreases n - i,
    {
        let c = s.get_char(i);
        proof {
            let ii = i as int;
            assert(s@.take(ii + 1).drop_last() =~= s@.take(ii));
            assert(s@.take(ii + 1).last() == s@[ii]);
        }
        if c == ',' {
            cnt += 1;
        }
        i += 1;
    }
    proof {
        assert(s@.take(n as int) =~= s@);
    }
    cnt
}

/// Encodes a computed primitive value with the textual strategy.
pub fn encode_textual(v: &ConstValue) -> (r: (String, FormatTag))
    ensures
        r.0@ == spec_render_value(*v),
        r.1 == FormatTag::Textual,
{
    (render_value(v), FormatTag::Textual)
}

/// Encodes a value's in-memory bytes with the raw-bytes strategy.
pub fn encode_raw(mem: &Vec<u8>) -> (r: (String, FormatTag))
    ensures
        r.0@ == spec_render_byte_list(mem@),
        r.1 == FormatTag::RawBytes,
{
    (render_byte_list(mem), FormatTag::RawBytes)
}

/// Whether a character is a decimal digit.
pub open spec fn is_dec_digit(c: char) -> bool {
    ||| c == '0'
    ||| c == '1'
    ||| c == '2'
    ||| c == '3'
    ||| c == '4'
    ||| c == '5'
    ||| c == '6'
    ||| c == '7'
    ||| c == '8'
    ||| c == '9'
}

proof fn lemma_digits_shape(n: nat)
    ensures
        spec_digits(n).len() >= 1,
        n < 10 ==> spec_digits(n).len() == 1,
        n >= 10 ==> spec_digits(n).len() == spec_digits(n / 10).len() + 1,
        spec_digits(n).last() == digit_char(n % 10),
        forall|i: int| 0 <= i < spec_digits(n).len() ==> is_dec_digit(#[trigger] spec_digits(n)[i]),
    decreases n,
{
    if n < 10 {
        assert(spec_digits(n) == seq![digit_char(n)]);
        assert(spec_digits(n)[0] == digit_char(n));
    } else {
        lemma_digits_shape(n / 10);
        let a = spec_digits(n / 10);
        let s = spec_digits(n);
        assert(s == a + seq![digit_char(n % 10)]);
        assert forall|i: int| 0 <= i < s.len() implies is_dec_digit(s[i]) by {
            if i < a.len() {
                assert(s[i] == a[i]);
            } else {
                assert(s[i] == digit_char(n % 10));
            }
        }
    }
}

proof fn lemma_digit_char_injective(a: nat, b: nat)
    requires
        a < 10,
        b < 10,
        digit_char(a) == digit_char(b),
    ensures
        a == b,
{
}

proof fn lemma_digits_injective(a: nat, b: nat)
    requires
        spec_digits(a) == spec_digits(b),
    ensures
        a == b,
    decreases a,
{
    lemma_digits_shape(a);
    lemma_digits_shape(b);
    if a < 10 && b < 10 {
        assert(spec_digits(a)[0] == digit_char(a));
        assert(spec_digits(b)[0] == digit_char(b));
        lemma_digit_char_injective(a, b);
    } else if a < 10 {
        assert(false);
    } else if b < 10 {
        assert(false);
    } else {
        assert(spec_digits(a).last() == digit_char(a % 10));
        assert(spec_digits(b).last() == digit_char(b % 10));
        lemma_digit_char_injective(a % 10, b % 10);
        assert(spec_digits(a).drop_last() =~= spec_digits(a / 10));
        assert(spec_digits(b).drop_last() =~= spec_digits(b / 10));
        lemma_digits_injective(a / 10, b / 10);
        assert(a == 10 * (a / 10) + a % 10);
        assert(b == 10 * (b / 10) + b % 10);
    }
}

/// Distinct integers never render to the same decimal text.
pub proof fn lemma_render_int_injective(x: int, y: int)
    requires
        spec_render_int(x) == spec_render_int(y),
    ensures
        x == y,
{
    if x < 0 && y < 0 {
        assert((seq!['-'] + spec_digits((-x) as nat)).skip(1) =~= spec_digits((-x) as nat));
        assert((seq!['-'] + spec_digits((-y) as nat)).skip(1) =~= spec_digits((-y) as nat));
        lemma_digits_injective((-x) as nat, (-y) as nat);
    } else if x < 0 {
        lemma_digits_shape((-x) as nat);
        lemma_digits_shape(y as nat);
        assert(spec_render_int(x)[0] == '-');
        assert(is_dec_digit(spec_render_int(y)[0]));
        assert(false);
    } else if y < 0 {
        lemma_digits_shape(x as nat);
        lemma_digits_shape((-y) as nat);
        assert(spec_render_int(y)[0] == '-');
        assert(is_dec_digit(spec_render_int(x)[0]));
        assert(false);
    } else {
        lemma_digits_injective(x as nat, y as nat);
    }
}

/// Distinct values never render to the same literal text: the literal
/// the emit pass splices back determines the computed value.
pub proof fn lemma_render_value_injective(v1: ConstValue, v2: ConstValue)
    requires
        spec_render_value(v1) == spec_render_value(v2),
    ensures
        v1 == v2,
{
    match (v1, v2) {
        (ConstValue::Int(n1), ConstValue::Int(n2)) => {
            lemma_render_int_injective(n1 as int, n2 as int);
        },
        (ConstValue::Bool(b1), ConstValue::Bool(b2)) => {
            if b1 != b2 {
                assert(spec_render_bool(true).len() == 4);
                assert(spec_render_bool(false).len() == 5);
                assert(false);
            }
        },
        (ConstValue::Int(n), ConstValue::Bool(b)) => {
            if n as int >= 0 {
                lemma_digits_shape(n as nat);
                assert(is_dec_digit(spec_render_value(v1)[0]));
            } else {
                lemma_digits_shape((-(n as int)) as nat);
                assert(spec_render_value(v1)[0] == '-');
            }
            assert(spec_render_bool(b)[0] == 't' || spec_render_bool(b)[0] == 'f');
            assert(false);
        },
        (ConstValue::Bool(b), ConstValue::Int(n)) => {
            if n as int >= 0 {
                lemma_digits_shape(n as nat);
                assert(is_dec_digit(spec_render_value(v2)[0]));
            } else {
                lemma_digits_shape((-(n as int)) as nat);
                assert(spec_render_value(v2)[0] == '-');
            }
            assert(spec_render_bool(b)[0] == 't' || spec_render_bool(b)[0] == 'f');
            assert(false);
        },
    }
}

proof fn lemma_count_commas_concat(a: Seq<char>, b: Seq<char>)
    ensures
        spec_count_commas(a + b) == spec_count_commas(a) + spec_count_commas(b),
    decreases b.len(),
{
    if b.len() == 0 {
        assert(a + b =~= a);
    } else {
        assert((a + b).drop_last() =~= a + b.drop_last());
        assert((a + b).last() == b.last());
        lemma_count_commas_concat(a, b.drop_last());
    }
}

proof fn lemma_count_commas_single(c: char)
    ensures
        spec_count_commas(seq![c]) == if c == ',' {
            1nat
        } else {
            0nat
        },
{
    assert(spec_count_commas(Seq::<char>::empty()) == 0);
    assert(seq![c].drop_last() =~= Seq::<char>::empty());
    assert(seq![c].last() == c);
}

proof fn lemma_digits_comma_free(n: nat)
    ensures
        spec_count_commas(spec_digits(n)) == 0,
    decreases n,
{
    if n < 10 {
        lemma_count_commas_single(digit_char(n));
        assert(digit_char(n) != ',');
    } else {
        lemma_digits_comma_free(n / 10);
        lemma_count_commas_single(digit_char(n % 10));
        assert(digit_char(n % 10) != ',');
        lemma_count_commas_concat(spec_digits(n / 10), seq![digit_char(n % 10)]);
    }
}

proof fn lemma_sep_commas()
    ensures
        spec_count_commas(seq![',', ' ']) == 1,
{
    assert(seq![',', ' '].drop_last() =~= seq![',']);
    lemma_count_commas_single(',');
    assert(seq![',', ' '].last() == ' ');
}

proof fn lemma_byte_items_commas(s: Seq<u8>)
    ensures
        s.len() >= 1 ==> spec_count_commas(spec_render_byte_items(s)) == s.len() - 1,
        s.len() == 0 ==> spec_count_commas(spec_render_byte_items(s)) == 0,
    decreases s.len(),
{
    if s.len() == 0 {
    } else if s.len() == 1 {
        lemma_digits_comma_free(s[0] as nat);
    } else {
        lemma_byte_items_commas(s.drop_last());
        lemma_digits_comma_free(s.last() as nat);
        lemma_sep_commas();
        lemma_count_commas_concat(spec_render_byte_items(s.drop_last()), seq![',', ' ']);
        lemma_count_commas_concat(
            spec_render_byte_items(s.drop_last()) + seq![',', ' '],
            spec_digits(s.last() as nat),
        );
    }
}

/// The element count of a rendered byte list is exactly one more than
/// its comma count (for a non-empty list), so the count the emit pass
/// recovers from the payload text is the true byte count.
pub proof fn lemma_byte_list_commas(s: Seq<u8>)
    ensures
        s.len() >= 1 ==> spec_count_commas(spec_render_byte_list(s)) == s.len() - 1,
        s.len() == 0 ==> spec_count_commas(spec_render_byte_list(s)) == 0,
{
    lemma_byte_items_commas(s);
    lemma_count_commas_single('[');
    lemma_count_commas_single(']');
    lemma_count_commas_concat(seq!['['], spec_render_byte_items(s));
    lemma_count_commas_concat(seq!['['] + spec_render_byte_items(s), seq![']']);
}

proof fn lemma_byte_items_shape(s: Seq<u8>)
    ensures
        s.len() == 0 ==> spec_render_byte_items(s).len() == 0,
        s.len() >= 1 ==> spec_render_byte_items(s).len() >= 1,
{
    if s.len() == 1 {
        lemma_digits_shape(s[0] as nat);
    } else if s.len() >= 2 {
        lemma_digits_shape(s.last() as nat);
    }
}

proof fn lemma_byte_items_injective(s1: Seq<u8>, s2: Seq<u8>)
    requires
        spec_render_byte_items(s1) == spec_render_byte_items(s2),
    ensures
        s1 == s2,
    decreases s1.len(),
{
    lemma_byte_items_commas(s1);
    lemma_byte_items_commas(s2);
    lemma_byte_items_shape(s1);
    lemma_byte_items_shape(s2);
    if s1.len() == 0 {
        assert(s2.len() == 0);
        assert(s1 =~= s2);
    } else {
        assert(s2.len() >= 1);
        assert(s1.len() == s2.len());
        if s1.len() == 1 {
            lemma_digits_injective(s1[0] as nat, s2[0] as nat);
            assert(s1 =~= s2);
        } else {
            let t = spec_render_byte_items(s1);
            let a1 = spec_render_byte_items(s1.drop_last());
            let d1 = spec_digits(s1.last() as nat);
            let a2 = spec_render_byte_items(s2.drop_last());
            let d2 = spec_digits(s2.last() as nat);
            assert(t == a1 + seq![',', ' '] + d1);
            assert(t == a2 + seq![',', ' '] + d2);
            lemma_digits_shape(s1.last() as nat);
            lemma_digits_shape(s2.last() as nat);
            let l = t.len() as int;
            assert(l == a1.len() + 2 + d1.len());
            assert(l == a2.len() + 2 + d2.len());
            if d1.len() < d2.len() {
                let q = l - d1.len() - 1;
                assert(t[q] == ' ');
                assert(t[q] == d2[q - (a2.len() + 2)]);
                assert(is_dec_digit(t[q]));
                assert(false);
            } else if d2.len() < d1.len() {
                let q = l - d2.len() - 1;
                assert(t[q] == ' ');
                assert(t[q] == d1[q - (a1.len() + 2)]);
                assert(is_dec_digit(t[q]));
                assert(false);
            }
            assert(d1.len() == d2.len());
            assert(d1 =~= t.subrange(l - d1.len(), l));
            assert(d2 =~= t.subrange(l - d2.len(), l));
            lemma_digits_injective(s1.last() as nat, s2.last() as nat);
            assert(a1 =~= t.subrange(0, l - d1.len() - 2));
            assert(a2 =~= t.subrange(0, l - d2.len() - 2));
            lemma_byte_items_injective(s1.drop_last(), s2.drop_last());
            assert(s1 =~= s2) by {
                assert(forall|i: int|
                    0 <= i < s1.len() - 1 ==> s1[i] == s1.drop_last()[i] && s2[i]
                        == s2.drop_last()[i]);
            }
        }
    }
}

/// Distinct byte sequences never render to the same array literal: the
/// array literal the emit pass splices back determines, byte for byte,
/// the in-memory value recorded by the compute pass.
pub proof fn lemma_render_byte_list_injective(b1: Seq<u8>, b2: Seq<u8>)
    requires
        spec_render_byte_list(b1) == spec_render_byte_list(b2),
    ensures
        b1 == b2,
{
    let t1 = spec_render_byte_list(b1);
    let t2 = spec_render_byte_list(b2);
    assert(spec_render_byte_items(b1) =~= t1.subrange(1, t1.len() - 1));
    assert(spec_render_byte_items(b2) =~= t2.subrange(1, t2.len() - 1));
    lemma_byte_items_injective(b1, b2);
}

/// The source form a validated payload decodes to.
#[derive(Debug, PartialEq, Eq)]
pub enum DecodedSource {
    /// Textual strategy: the payload text, re-embedded verbatim as a
    /// literal expression.
    Literal(String),
    /// Raw-bytes strategy: the byte-array literal text together with
    /// its element count.
    ByteArray { source: String, len: usize },
}

/// Ghost mirror of [`DecodedSource`].
pub enum DecodedView {
    Literal(Seq<char>),
    ByteArray(Seq<char>, nat),
}

impl View for DecodedSource {
    type V = DecodedView;

    open spec fn view(&self) -> DecodedView {
        match self {
            DecodedSource::Literal(s) => DecodedView::Literal(s@),
            DecodedSource::ByteArray { source, len } => DecodedView::ByteArray(
                source@,
                *len as nat,
            ),
        }
    }
}

/// What decoding a payload yields: the literal source for the textual
/// strategy; for raw bytes, the array-literal source, accepted only if
/// its element count (one more than its comma count) equals the exact
/// in-memory size of the target type.
pub open spec fn spec_decode(tag: FormatTag, payload: Seq<char>, size_hint: nat) -> Result<
    DecodedView,
    PipelineError,
> {
    match tag {
        FormatTag::Textual => Ok(DecodedView::Literal(payload)),
        FormatTag::RawBytes => {
            if spec_count_commas(payload) + 1 == size_hint {
                Ok(DecodedView::ByteArray(payload, size_hint))
            } else {
                Err(PipelineError::SerializationFailure)
            }
        },
    }
}

/// Decodes a stored payload back into spliceable source, checking a
/// raw-bytes payload's element count against the exact in-memory size
/// of the target type.
pub fn decode(tag: FormatTag, payload: String, size_hint: usize) -> (r: Result<
    DecodedSource,
    PipelineError,
>)
    ensures
        match r {
            Ok(d) => spec_decode(tag, payload@, size_hint as nat) == Ok::<
                DecodedView,
                PipelineError,
            >(d@),
            Err(e) => spec_decode(tag, payload@, size_hint as nat) == Err::<
                DecodedView,
                PipelineError,
            >(e),
        },
{
    match tag {
        FormatTag::Textual => Ok(DecodedSource::Literal(payload)),
        FormatTag::RawBytes => {
            let commas = count_commas(payload.as_str());
            if size_hint >= 1 && commas == size_hint - 1 {
                Ok(DecodedSource::ByteArray { source: payload, len: size_hint })
            } else {
                Err(PipelineError::SerializationFailure)
            }
        },
    }
}

} // verus!
