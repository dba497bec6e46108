//! A record with a hand-rolled map form: it serializes to at most three
//! named entries, and is rebuilt from entries one at a time, rejecting a
//! repeated or a missing required field. The surrounding format reads
//! and writes the entries; this is the record's own logic.

use vstd::prelude::*;

verus! {

/// The variant of a record, decided by which optional fields it carries.
#[derive(Clone, Copy, Debug, PartialEq, Eq, Structural)]
pub enum Type {
    Alpha,
    Beta,
}

/// The names of the record's fields.
#[derive(Clone, Copy, Debug, PartialEq, Eq, Structural)]
pub enum CustomField {
    First,
    Second,
    Third,
}

/// One named entry of the record's map form.
#[derive(Debug, Clone, PartialEq)]
pub enum CustomEntry {
    First(String),
    Second(u32),
    Third(String),
}

/// Why a sequence of entries does not form a record.
#[derive(Clone, Copy, Debug, PartialEq, Eq, Structural)]
pub enum CustomDecodeError {
    DuplicateField(CustomField),
    MissingField(CustomField),
}

/// The record: two required fields, one optional, and a variant derived
/// from the optional one at decode time.
#[derive(Debug, Clone, PartialEq)]
pub struct Custom {
    pub first: String,
    pub second: u32,
    pub third: Option<String>,
    pub typ: Type,
}

/// The variant a decoded record gets: `Beta` exactly when the optional
/// field is present.
pub open spec fn spec_determine_typ(third: Option<String>) -> Type {
    match third {
        Some(t) => Type::Beta,
        None => Type::Alpha,
    }
}

/// The record denoted by the remaining entries, given what the earlier
/// entries already established: a repeated field is rejected at once, a
/// missing required field at the end.
pub open spec fn visit_entries(
    entries: Seq<CustomEntry>,
    first: Option<String>,
    second: Option<u32>,
    third: Option<String>,
) -> Result<Custom, CustomDecodeError>
    decreases entries.len(),
{
    if entries.len() == 0 {
        match first {
            None => Err(CustomDecodeError::MissingField(CustomField::First)),
            Some(f) => match second {
                None => Err(CustomDecodeError::MissingField(CustomField::Second)),
                Some(s) => Ok(
                    Custom { first: f, second: s, third, typ: spec_determine_typ(third) },
                ),
            },
        }
    } else {
        match entries.first() {
            CustomEntry::First(v) => if first is Some {
                Err(CustomDecodeError::DuplicateField(CustomField::First))
            } else {
                visit_entries(entries.drop_first(), Some(v), second, third)
            },
            CustomEntry::Second(v) => if second is Some {
                Err(CustomDecodeError::DuplicateField(CustomField::Second))
            } else {
                visit_entries(entries.drop_first(), first, Some(v), third)
            },
            CustomEntry::Third(v) => if third is Some {
                Err(CustomDecodeError::DuplicateField(CustomField::Third))
            } else {
                visit_entries(entries.drop_first(), first, second, Some(v))
            },
        }
    }
}

/// The record a whole entry sequence denotes.
pub open spec fn spec_from_entries(entries: Seq<CustomEntry>) -> Result<Custom, CustomDecodeError> {
    visit_entries(entries, None, None, None)
}

/// The map form of a record: the two required fields, then the optional
/// one if it is present.
pub open spec fn spec_entries(c: Custom) -> Seq<CustomEntry> {
    let base = seq![CustomEntry::First(c.first), CustomEntry::Second(c.second)];
    match c.third {
        Some(t) => base.push(CustomEntry::Third(t)),
        None => base,
    }
}

/// Round trip: a record written out as entries and rebuilt from them
/// comes back with the same fields, and with the variant that decoding
/// derives from the optional field.
pub proof fn lemma_entries_round_trip(c: Custom)
    ensures
        spec_from_entries(spec_entries(c)) == Ok::<Custom, CustomDecodeError>(
            Custom {
                first: c.first,
                second: c.second,
                third: c.third,
                typ: spec_determine_typ(c.third),
            },
        ),
{
    let base = seq![CustomEntry::First(c.first), CustomEntry::Second(c.second)];
    match c.third {
        Some(t) => {
            let s = base.push(CustomEntry::Third(t));
            assert(spec_entries(c) == s);
            let s1 = s.drop_first();
            let s2 = s1.drop_first();
            let s3 = s2.drop_first();
            assert(s.len() == 3 && s.first() == CustomEntry::First(c.first));
            assert(s1.len() == 2 && s1.first() == CustomEntry::Second(c.second));
            assert(s2.len() == 1 && s2.first() == CustomEntry::Third(t));
            assert(s3.len() == 0);
            assert(visit_entries(s, None, None, None) == visit_entries(
                s1,
                Some(c.first),
                None,
                None,
            ));
            assert(visit_entries(s1, Some(c.first), None, None) == visit_entries(
                s2,
                Some(c.first),
                Some(c.second),
                None,
            ));
            assert(visit_entries(s2, Some(c.first), Some(c.second), None) == visit_entries(
                s3,
                Some(c.first),
                Some(c.second),
                Some(t),
            ));
        },
        None => {
            let s = base;
            assert(spec_entries(c) == s);
            let s1 = s.drop_first();
            let s2 = s1.drop_first();
            assert(s.len() == 2 && s.first() == CustomEntry::First(c.first));
            assert(s1.len() == 1 && s1.first() == CustomEntry::Second(c.second));
            assert(s2.len() == 0);
            assert(visit_entries(s, None, None, None) == visit_entries(
                s1,
                Some(c.first),
                None,
                None,
            ));
            assert(visit_entries(s1, Some(c.first), None, None) == visit_entries(
                s2,
                Some(c.first),
                Some(c.second),
                None,
            ));
        },
    }
}

impl Custom {
    pub fn new(first: String, second: u32, third: Option<String>) -> (r: Custom)
        ensures
            r == (Custom { first, second, third, typ: Type::Alpha }),
    {
        Custom { first, second, third, typ: Type::Alpha }
    }

    pub fn new_with_typ(first: String, second: u32, third: Option<String>, typ: Type) -> (r:
        Custom)
        ensures
            r == (Custom { first, second, third, typ }),
    {
        Custom { first, second, third, typ }
    }

    pub fn determine_typ(third: &Option<String>) -> (r: Type)
        ensures
            r == spec_determine_typ(*third),
    {
        match third {
            Some(t) => Type::Beta,
            None => Type::Alpha,
        }
    }

    /// The record's map form, for a format to write out.
    pub fn entries(&self) -> (r: Vec<CustomEntry>)
        ensures
            r@ == spec_entries(*self),
    {
        let mut r: Vec<CustomEntry> = Vec::new();
        r.push(CustomEntry::First(self.first.clone()));
        r.push(CustomEntry::Second(self.second));
        match &self.third {
            Some(t) => {
                r.push(CustomEntry::Third(t.clone()));
            },
            None => (),
        }
        proof {
            assert(r@ =~= spec_entries(*self));
        }
        r
    }

    /// Rebuild a record from entries read off a map, one at a time: a
    /// repeated field is rejected at once, a missing required field at
    /// the end, and the variant is derived from the optional field.
    #[verifier::loop_isolation(false)]
    pub fn from_entries(entries: Vec<CustomEntry>) -> (r: Result<Custom, CustomDecodeError>)
        ensures
            r == spec_from_entries(entries@),
    {
        let ghost orig = entries@;
        let mut rest = entries;
        let mut first: Option<String> = None;
        let mut second: Option<u32> = None;
        let mut third: Option<String> = None;
        while rest.len() > 0
            invariant
                visit_entries(rest@, first, second, third) == visit_entries(
                    orig,
                    None,
                    None,
                    None,
                ),
            decreases rest@.len(),
        {
            proof {
                assert(rest@.remove(0) =~= rest@.drop_first());
            }
            let e = rest.remove(0);
            match e {
                CustomEntry::First(v) => {
                    if first.is_some() {
                        return Err(CustomDecodeError::DuplicateField(CustomField::First));
                    }
                    first = Some(v);
                },
                CustomEntry::Second(v) => {
                    if second.is_some() {
                        return Err(CustomDecodeError::DuplicateField(CustomField::Second));
                    }
                    second = Some(v);
                },
                CustomEntry::Third(v) => {
                    if third.is_some() {
                        return Err(CustomDecodeError::DuplicateField(CustomField::Third));
                    }
                    third = Some(v);
                },
            }
        }
        let f = match first {
            Some(f) => f,
            None => {
                return Err(CustomDecodeError::MissingField(CustomField::First));
            },
        };
        let s = match second {
            Some(s) => s,
            None => {
                return Err(CustomDecodeError::MissingField(CustomField::Second));
            },
        };
        let typ = Custom::determine_typ(&third);
        Ok(Custom { first: f, second: s, third, typ })
    }
}

} // verus!
