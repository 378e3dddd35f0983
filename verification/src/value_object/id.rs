//! A generalised ID type for entities and aggregates.
use std::marker::PhantomData;
use vstd::arithmetic::power2::pow2;
use vstd::prelude::*;
use vstd::std_specs::cmp::PartialEqSpecImpl;

verus! {

/// The identifier of an entity marked by `T`: a UUID, held as its 128-bit value.
#[derive(Clone, Copy, Debug)]
pub struct Id<T> {
    id: u128,
    marker: PhantomData<T>,
}

impl<T> View for Id<T> {
    type V = u128;

    closed spec fn view(&self) -> u128 {
        self.id
    }
}

/// The lower-case hexadecimal digit for `d` (0 to 15).
pub open spec fn hex_char(d: int) -> char {
    if d < 10 {
        (48 + d) as char
    } else {
        (87 + d) as char
    }
}

/// The `i`-th of the 32 hexadecimal digits of `v`, counted from the most significant.
pub open spec fn hex_digit_of(v: u128, i: int) -> int {
    (v as int / pow2((4 * (31 - i)) as nat) as int) % 16
}

/// The hyphenated lower-case text of a UUID: its 32 hexadecimal digits, most
/// significant first, in groups of 8, 4, 4, 4 and 12 separated by `-`.
pub open spec fn uuid_text(v: u128) -> Seq<char> {
    Seq::new(
        36,
        |k: int|
            if k == 8 || k == 13 || k == 18 || k == 23 {
                '-'
            } else {
                hex_char(
                    hex_digit_of(
                        v,
                        k - (if k < 8 {
                            0int
                        } else if k < 13 {
                            1
                        } else if k < 18 {
                            2
                        } else if k < 23 {
                            3
                        } else {
                            4
                        }),
                    ),
                )
            },
    )
}

/// Formats the UUID with value `v` by `uuid::Uuid`'s `Display`, which writes
/// the hyphenated lower-case form; the contract claims that this is `uuid_text(v)`.
#[verifier::external_body]
fn uuid_to_string(v: u128) -> (s: String)
    ensures
        s@ == uuid_text(v),
{
    uuid::Uuid::from_u128(v).to_string()
}

impl<T> Id<T> {
    pub fn new(id: u128) -> (r: Self)
        ensures
            r@ == id,
    {
        Id { id, marker: PhantomData }
    }

    /// The 128-bit value of the UUID.
    pub fn as_u128(&self) -> (v: u128)
        ensures
            v == self@,
    {
        self.id
    }

    /// Whether both identifiers name the same UUID.
    pub fn same_as(&self, other: &Self) -> (same: bool)
        ensures
            same == (self@ == other@),
    {
        self.id == other.id
    }

    /// The hyphenated lower-case text of the UUID, as `Display` writes it.
    pub fn to_string(&self) -> (s: String)
        ensures
            s@ == uuid_text(self@),
    {
        uuid_to_string(self.id)
    }
}

impl<T> PartialEq for Id<T> {
    fn eq(&self, other: &Self) -> (same: bool) {
        self.id == other.id
    }
}

impl<T> PartialEqSpecImpl for Id<T> {
    open spec fn obeys_eq_spec() -> bool {
        true
    }

    /// Identifiers are equal when they name the same UUID.
    open spec fn eq_spec(&self, other: &Self) -> bool {
        self@ == other@
    }
}

impl<T> Eq for Id<T> {
}

/// Two identifiers with the same UUID are the same value.
pub proof fn lemma_id_view_injective<T>(a: Id<T>, b: Id<T>)
    ensures
        a@ == b@ ==> a == b,
{
}

} // verus!
