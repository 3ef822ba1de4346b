//! Properties on enum variants.
//!
//! An enum gets a property by an association to a record type: each of its
//! values has one record of that type attached, which lives for the rest of
//! the program. The association is the trait [`EnumProp`]. An implementation
//! states the table from values to records as the spec function
//! `declared`, and looks the record up with one `match` in `property`.
//!
//! Where the record itself comes from is the implementation's business: it
//! may be a constant, a global, or a cell that is filled on first use. The
//! contract speaks of the record's value only, never of its address, so a
//! constant that the compiler duplicates or merges meets it as well.
//!
//! An enum may carry associations to several record types at once, since the
//! trait is keyed by the pair of enum and record type. Code that is generic
//! over `E: EnumProp<P>` works for every enum that has a record of type `P`.
use vstd::prelude::*;

pub mod benchs;

verus! {

/// An association from an enum to a record type `Prop`: every value of the
/// implementing type has exactly one record of type `Prop` attached.
pub trait EnumProp<Prop> {
    /// The record that is declared for this value. An implementation states
    /// here its table from values to records; where it states none, the record
    /// is left unspecified.
    open spec fn declared(&self) -> Prop {
        arbitrary()
    }

    /// Looks up the record that is attached to this value. The reference is
    /// good for the rest of the program.
    fn property(&self) -> (record: &'static Prop)
        ensures
            *record == self.declared(),
    ;
}

/// Two lookups on the same value yield equal records, both the one declared
/// for it, whatever the addresses of the two references are.
pub proof fn lemma_lookups_agree<E: EnumProp<P>, P: 'static>(
    e: &E,
    first: &'static P,
    second: &'static P,
)
    requires
        call_ensures(E::property, (e,), first),
        call_ensures(E::property, (e,), second),
    ensures
        *first == *second,
        *first == e.declared(),
{
}

/// A value may carry associations to several record types. A lookup under one
/// of them yields the record declared under that one, and the same record
/// before and after a lookup under another.
pub proof fn lemma_associations_are_independent<E, P: 'static, Q: 'static>(
    e: &E,
    before: &'static P,
    other: &'static Q,
    after: &'static P,
) where E: EnumProp<P> + EnumProp<Q>
    requires
        call_ensures(<E as EnumProp<P>>::property, (e,), before),
        call_ensures(<E as EnumProp<Q>>::property, (e,), other),
        call_ensures(<E as EnumProp<P>>::property, (e,), after),
    ensures
        *before == *after,
        *before == EnumProp::<P>::declared(e),
        *other == EnumProp::<Q>::declared(e),
{
}

} // verus!
