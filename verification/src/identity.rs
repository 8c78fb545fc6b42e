//! Identities of checks: the key by which the scheduler tells checks apart.

use vstd::prelude::*;
use vstd::std_specs::cmp::PartialEqSpecImpl;
use vstd::string::StringExecFns;

verus! {

/// The sixteen lower-case hexadecimal digits.
pub open spec fn hex_digits() -> Seq<char> {
    seq!['0', '1', '2', '3', '4', '5', '6', '7', '8', '9', 'a', 'b', 'c', 'd', 'e', 'f']
}

/// Which of the 32 hexadecimal digits of a UUID stands at index `i` of its hyphenated form,
/// counted from the most significant one. Not meaningful at the four hyphens.
pub open spec fn digit_at(i: int) -> int {
    if i < 8 {
        i
    } else if i < 13 {
        i - 1
    } else if i < 18 {
        i - 2
    } else if i < 23 {
        i - 3
    } else {
        i - 4
    }
}

/// The `k`-th hexadecimal digit of `value`, counted from the most significant one.
pub open spec fn nibble(value: u128, k: int) -> u128 {
    (value >> ((4 * (31 - k)) as u128)) & 0xf
}

/// The hyphenated lower-case form of the UUID with the 128-bit value `value`:
/// 32 hexadecimal digits, most significant first, in groups of 8, 4, 4, 4 and 12.
pub open spec fn hyphenated_text(value: u128) -> Seq<char> {
    Seq::new(
        36,
        |i: int|
            if i == 8 || i == 13 || i == 18 || i == 23 {
                '-'
            } else {
                hex_digits()[nibble(value, digit_at(i)) as int]
            },
    )
}

/// The identity of a kind of check that takes no parameter.
pub open spec fn plain_identity(kind: u128) -> Seq<char> {
    hyphenated_text(kind)
}

/// The identity of a check of kind `kind` made for `param`.
pub open spec fn parameterised_identity(kind: u128, param: Seq<char>) -> Seq<char> {
    hyphenated_text(kind) + "-"@ + param
}

/// Calls `uuid::Uuid::from_u128`, `Uuid::to_hyphenated` and `Hyphenated::encode_lower` (on a
/// buffer from `Uuid::encode_buffer`). Trusted: the text is the hyphenated lower-case
/// hexadecimal form of `value`, as `hyphenated_text` spells it out.
#[verifier::external_body]
fn hyphenated(value: u128) -> (text: String)
    ensures
        text@ == hyphenated_text(value),
{
    uuid::Uuid::from_u128(value).to_hyphenated().encode_lower(
        &mut uuid::Uuid::encode_buffer(),
    ).to_string()
}

/// The deduplication key of a check: its kind, and its parameter where it has one.
#[derive(Debug)]
pub struct CheckId(String);

impl View for CheckId {
    type V = Seq<char>;

    closed spec fn view(&self) -> Seq<char> {
        self.0@
    }
}

impl DeepView for CheckId {
    type V = Seq<char>;

    open spec fn deep_view(&self) -> Seq<char> {
        self@
    }
}

impl PartialEq for CheckId {
    fn eq(&self, other: &CheckId) -> (same: bool) {
        self.0 == other.0
    }
}

impl PartialEqSpecImpl for CheckId {
    open spec fn obeys_eq_spec() -> bool {
        true
    }

    open spec fn eq_spec(&self, other: &CheckId) -> bool {
        self@ == other@
    }
}

impl Eq for CheckId {

}

impl CheckId {
    /// The identity of a check of the kind `uuid` that takes no parameter.
    pub fn from_uuid(uuid: u128) -> (id: CheckId)
        ensures
            id@ == plain_identity(uuid),
    {
        CheckId(hyphenated(uuid))
    }

    /// The identity of a check of the kind `uuid` made for `param`.
    pub fn from_uuid_param(uuid: u128, param: &str) -> (id: CheckId)
        ensures
            id@ == parameterised_identity(uuid, param@),
    {
        let mut text = hyphenated(uuid);
        text.append("-");
        text.append(param);
        CheckId(text)
    }

    /// The identity as text.
    pub fn text(&self) -> (text: String)
        ensures
            text@ == self@,
    {
        self.0.clone()
    }

    /// A copy of the identity.
    pub fn duplicate(&self) -> (id: CheckId)
        ensures
            id@ == self@,
    {
        CheckId(self.0.clone())
    }
}

/// Two checks of parameterised kinds have the same identity only if they were made for the
/// same parameter.
pub proof fn lemma_identity_tells_parameters_apart(
    kind_a: u128,
    param_a: Seq<char>,
    kind_b: u128,
    param_b: Seq<char>,
)
    requires
        parameterised_identity(kind_a, param_a) == parameterised_identity(kind_b, param_b),
    ensures
        param_a == param_b,
        hyphenated_text(kind_a) == hyphenated_text(kind_b),
{
    reveal_strlit("-");
    let a = parameterised_identity(kind_a, param_a);
    let b = parameterised_identity(kind_b, param_b);
    assert(a.len() == 37 + param_a.len());
    assert(b.len() == 37 + param_b.len());
    assert forall|i: int| 0 <= i < param_a.len() implies param_a[i] == param_b[i] by {
        assert(a[37 + i] == param_a[i]);
        assert(b[37 + i] == param_b[i]);
    }
    assert(param_a =~= param_b);
    assert forall|i: int| 0 <= i < 36 implies hyphenated_text(kind_a)[i] == hyphenated_text(
        kind_b,
    )[i] by {
        assert(a[i] == hyphenated_text(kind_a)[i]);
        assert(b[i] == hyphenated_text(kind_b)[i]);
    }
    assert(hyphenated_text(kind_a) =~= hyphenated_text(kind_b));
}

/// A check of a kind without parameter never shares its identity with a parameterised one.
pub proof fn lemma_plain_identity_differs_from_parameterised(
    kind_a: u128,
    kind_b: u128,
    param_b: Seq<char>,
)
    ensures
        plain_identity(kind_a) != parameterised_identity(kind_b, param_b),
{
    reveal_strlit("-");
    assert(plain_identity(kind_a).len() == 36);
    assert(parameterised_identity(kind_b, param_b).len() == 37 + param_b.len());
}

/// The sixteen hexadecimal digits are sixteen different characters.
proof fn lemma_digits_differ(x: int, y: int)
    requires
        0 <= x < 16,
        0 <= y < 16,
        hex_digits()[x] == hex_digits()[y],
    ensures
        x == y,
{
}

/// Two UUIDs with the same hyphenated form have the same `k`-th digit, which stands at
/// index `i` of that form.
proof fn lemma_same_text_same_digit(a: u128, b: u128, k: int, i: int)
    requires
        hyphenated_text(a) == hyphenated_text(b),
        0 <= k < 32,
        0 <= i < 36,
        i != 8 && i != 13 && i != 18 && i != 23,
        digit_at(i) == k,
    ensures
        nibble(a, k) == nibble(b, k),
{
    let x = (a >> ((4 * (31 - k)) as u128));
    let y = (b >> ((4 * (31 - k)) as u128));
    assert((x & 0xf) < 16) by (bit_vector);
    assert((y & 0xf) < 16) by (bit_vector);
    assert(hyphenated_text(a)[i] == hex_digits()[nibble(a, k) as int]);
    assert(hyphenated_text(b)[i] == hex_digits()[nibble(b, k) as int]);
    lemma_digits_differ(nibble(a, k) as int, nibble(b, k) as int);
}

/// The hyphenated form tells UUIDs apart: two kinds of check with the same text are the
/// same kind.
pub proof fn lemma_hyphenated_text_tells_kinds_apart(a: u128, b: u128)
    requires
        hyphenated_text(a) == hyphenated_text(b),
    ensures
        a == b,
{
    lemma_same_text_same_digit(a, b, 0, 0);
    lemma_same_text_same_digit(a, b, 1, 1);
    lemma_same_text_same_digit(a, b, 2, 2);
    lemma_same_text_same_digit(a, b, 3, 3);
    lemma_same_text_same_digit(a, b, 4, 4);
    lemma_same_text_same_digit(a, b, 5, 5);
    lemma_same_text_same_digit(a, b, 6, 6);
    lemma_same_text_same_digit(a, b, 7, 7);
    lemma_same_text_same_digit(a, b, 8, 9);
    lemma_same_text_same_digit(a, b, 9, 10);
    lemma_same_text_same_digit(a, b, 10, 11);
    lemma_same_text_same_digit(a, b, 11, 12);
    lemma_same_text_same_digit(a, b, 12, 14);
    lemma_same_text_same_digit(a, b, 13, 15);
    lemma_same_text_same_digit(a, b, 14, 16);
    lemma_same_text_same_digit(a, b, 15, 17);
    lemma_same_text_same_digit(a, b, 16, 19);
    lemma_same_text_same_digit(a, b, 17, 20);
    lemma_same_text_same_digit(a, b, 18, 21);
    lemma_same_text_same_digit(a, b, 19, 22);
    lemma_same_text_same_digit(a, b, 20, 24);
    lemma_same_text_same_digit(a, b, 21, 25);
    lemma_same_text_same_digit(a, b, 22, 26);
    lemma_same_text_same_digit(a, b, 23, 27);
    lemma_same_text_same_digit(a, b, 24, 28);
    lemma_same_text_same_digit(a, b, 25, 29);
    lemma_same_text_same_digit(a, b, 26, 30);
    lemma_same_text_same_digit(a, b, 27, 31);
    lemma_same_text_same_digit(a, b, 28, 32);
    lemma_same_text_same_digit(a, b, 29, 33);
    lemma_same_text_same_digit(a, b, 30, 34);
    lemma_same_text_same_digit(a, b, 31, 35);
    assert(nibble(a, 0) == (a >> 124u128) & 0xf && nibble(b, 0) == (b >> 124u128) & 0xf);
    assert(nibble(a, 1) == (a >> 120u128) & 0xf && nibble(b, 1) == (b >> 120u128) & 0xf);
    assert(nibble(a, 2) == (a >> 116u128) & 0xf && nibble(b, 2) == (b >> 116u128) & 0xf);
    assert(nibble(a, 3) == (a >> 112u128) & 0xf && nibble(b, 3) == (b >> 112u128) & 0xf);
    assert(nibble(a, 4) == (a >> 108u128) & 0xf && nibble(b, 4) == (b >> 108u128) & 0xf);
    assert(nibble(a, 5) == (a >> 104u128) & 0xf && nibble(b, 5) == (b >> 104u128) & 0xf);
    assert(nibble(a, 6) == (a >> 100u128) & 0xf && nibble(b, 6) == (b >> 100u128) & 0xf);
    assert(nibble(a, 7) == (a >> 96u128) & 0xf && nibble(b, 7) == (b >> 96u128) & 0xf);
    assert(nibble(a, 8) == (a >> 92u128) & 0xf && nibble(b, 8) == (b >> 92u128) & 0xf);
    assert(nibble(a, 9) == (a >> 88u128) & 0xf && nibble(b, 9) == (b >> 88u128) & 0xf);
    assert(nibble(a, 10) == (a >> 84u128) & 0xf && nibble(b, 10) == (b >> 84u128) & 0xf);
    assert(nibble(a, 11) == (a >> 80u128) & 0xf && nibble(b, 11) == (b >> 80u128) & 0xf);
    assert(nibble(a, 12) == (a >> 76u128) & 0xf && nibble(b, 12) == (b >> 76u128) & 0xf);
    assert(nibble(a, 13) == (a >> 72u128) & 0xf && nibble(b, 13) == (b >> 72u128) & 0xf);
    assert(nibble(a, 14) == (a >> 68u128) & 0xf && nibble(b, 14) == (b >> 68u128) & 0xf);
    assert(nibble(a, 15) == (a >> 64u128) & 0xf && nibble(b, 15) == (b >> 64u128) & 0xf);
    assert(nibble(a, 16) == (a >> 60u128) & 0xf && nibble(b, 16) == (b >> 60u128) & 0xf);
    assert(nibble(a, 17) == (a >> 56u128) & 0xf && nibble(b, 17) == (b >> 56u128) & 0xf);
    assert(nibble(a, 18) == (a >> 52u128) & 0xf && nibble(b, 18) == (b >> 52u128) & 0xf);
    assert(nibble(a, 19) == (a >> 48u128) & 0xf && nibble(b, 19) == (b >> 48u128) & 0xf);
    assert(nibble(a, 20) == (a >> 44u128) & 0xf && nibble(b, 20) == (b >> 44u128) & 0xf);
    assert(nibble(a, 21) == (a >> 40u128) & 0xf && nibble(b, 21) == (b >> 40u128) & 0xf);
    assert(nibble(a, 22) == (a >> 36u128) & 0xf && nibble(b, 22) == (b >> 36u128) & 0xf);
    assert(nibble(a, 23) == (a >> 32u128) & 0xf && nibble(b, 23) == (b >> 32u128) & 0xf);
    assert(nibble(a, 24) == (a >> 28u128) & 0xf && nibble(b, 24) == (b >> 28u128) & 0xf);
    assert(nibble(a, 25) == (a >> 24u128) & 0xf && nibble(b, 25) == (b >> 24u128) & 0xf);
    assert(nibble(a, 26) == (a >> 20u128) & 0xf && nibble(b, 26) == (b >> 20u128) & 0xf);
    assert(nibble(a, 27) == (a >> 16u128) & 0xf && nibble(b, 27) == (b >> 16u128) & 0xf);
    assert(nibble(a, 28) == (a >> 12u128) & 0xf && nibble(b, 28) == (b >> 12u128) & 0xf);
    assert(nibble(a, 29) == (a >> 8u128) & 0xf && nibble(b, 29) == (b >> 8u128) & 0xf);
    assert(nibble(a, 30) == (a >> 4u128) & 0xf && nibble(b, 30) == (b >> 4u128) & 0xf);
    assert(nibble(a, 31) == (a >> 0u128) & 0xf && nibble(b, 31) == (b >> 0u128) & 0xf);
    assert(a == b) by (bit_vector)
        requires
            (a >> 124u128) & 0xf == (b >> 124u128) & 0xf,
            (a >> 120u128) & 0xf == (b >> 120u128) & 0xf,
            (a >> 116u128) & 0xf == (b >> 116u128) & 0xf,
            (a >> 112u128) & 0xf == (b >> 112u128) & 0xf,
            (a >> 108u128) & 0xf == (b >> 108u128) & 0xf,
            (a >> 104u128) & 0xf == (b >> 104u128) & 0xf,
            (a >> 100u128) & 0xf == (b >> 100u128) & 0xf,
            (a >> 96u128) & 0xf == (b >> 96u128) & 0xf,
            (a >> 92u128) & 0xf == (b >> 92u128) & 0xf,
            (a >> 88u128) & 0xf == (b >> 88u128) & 0xf,
            (a >> 84u128) & 0xf == (b >> 84u128) & 0xf,
            (a >> 80u128) & 0xf == (b >> 80u128) & 0xf,
            (a >> 76u128) & 0xf == (b >> 76u128) & 0xf,
            (a >> 72u128) & 0xf == (b >> 72u128) & 0xf,
            (a >> 68u128) & 0xf == (b >> 68u128) & 0xf,
            (a >> 64u128) & 0xf == (b >> 64u128) & 0xf,
            (a >> 60u128) & 0xf == (b >> 60u128) & 0xf,
            (a >> 56u128) & 0xf == (b >> 56u128) & 0xf,
            (a >> 52u128) & 0xf == (b >> 52u128) & 0xf,
            (a >> 48u128) & 0xf == (b >> 48u128) & 0xf,
            (a >> 44u128) & 0xf == (b >> 44u128) & 0xf,
            (a >> 40u128) & 0xf == (b >> 40u128) & 0xf,
            (a >> 36u128) & 0xf == (b >> 36u128) & 0xf,
            (a >> 32u128) & 0xf == (b >> 32u128) & 0xf,
            (a >> 28u128) & 0xf == (b >> 28u128) & 0xf,
            (a >> 24u128) & 0xf == (b >> 24u128) & 0xf,
            (a >> 20u128) & 0xf == (b >> 20u128) & 0xf,
            (a >> 16u128) & 0xf == (b >> 16u128) & 0xf,
            (a >> 12u128) & 0xf == (b >> 12u128) & 0xf,
            (a >> 8u128) & 0xf == (b >> 8u128) & 0xf,
            (a >> 4u128) & 0xf == (b >> 4u128) & 0xf,
            (a >> 0u128) & 0xf == (b >> 0u128) & 0xf,
    ;
}

/// Two checks have the same identity only if they are of the same kind and were made for
/// the same parameter.
pub proof fn lemma_identity_is_kind_and_parameter(
    kind_a: u128,
    param_a: Seq<char>,
    kind_b: u128,
    param_b: Seq<char>,
)
    ensures
        parameterised_identity(kind_a, param_a) == parameterised_identity(kind_b, param_b) <==> (
        kind_a == kind_b && param_a == param_b),
        plain_identity(kind_a) == plain_identity(kind_b) <==> kind_a == kind_b,
{
    if parameterised_identity(kind_a, param_a) == parameterised_identity(kind_b, param_b) {
        lemma_identity_tells_parameters_apart(kind_a, param_a, kind_b, param_b);
        lemma_hyphenated_text_tells_kinds_apart(kind_a, kind_b);
    }
    if plain_identity(kind_a) == plain_identity(kind_b) {
        lemma_hyphenated_text_tells_kinds_apart(kind_a, kind_b);
    }
}

} // verus!
