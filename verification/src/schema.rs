//! Column references, field descriptors, and the schema that resolution runs
//! against: an ordered sequence of named, typed, nullable fields, looked up by
//! column reference.

use vstd::prelude::*;
use crate::types::DataType;

verus! {

/// A reference to a column: an optional relation qualifier and a name.
#[derive(Debug, PartialEq)]
pub struct Column {
    pub relation: Option<String>,
    pub name: String,
}

impl Column {
    /// An owned copy of the reference.
    pub fn dup(&self) -> (r: Column)
        ensures
            r == *self,
    {
        Column {
            relation: match &self.relation {
                Some(q) => Some(q.clone()),
                None => None,
            },
            name: self.name.clone(),
        }
    }
}

/// A named, typed, nullable field descriptor, as a resolved expression
/// projects it into an output row.
#[derive(Debug, PartialEq)]
pub struct DFField {
    pub qualifier: Option<String>,
    pub name: String,
    pub data_type: DataType,
    pub nullable: bool,
}

/// The schema an expression is resolved against: an ordered sequence of
/// fields, queried by column reference.
#[derive(Debug, PartialEq)]
pub struct DFSchema {
    pub fields: Vec<DFField>,
}

/// Whether a field answers a column reference: the names must agree, and a
/// qualified reference must also agree with the field's qualifier. An
/// unqualified reference matches a field whatever the field's qualifier.
pub open spec fn spec_col_matches(f: DFField, c: Column) -> bool {
    &&& f.name@ == c.name@
    &&& match c.relation {
        Some(r) => f.qualifier matches Some(q) && q@ == r@,
        None => true,
    }
}

/// The field a column reference resolves to: the first match in schema order,
/// or `None` when the schema holds no matching field.
pub open spec fn spec_lookup_field(fields: Seq<DFField>, c: Column) -> Option<DFField>
    decreases fields.len(),
{
    if fields.len() == 0 {
        None
    } else if spec_col_matches(fields[0], c) {
        Some(fields[0])
    } else {
        spec_lookup_field(fields.drop_first(), c)
    }
}

fn col_matches(f: &DFField, c: &Column) -> (r: bool)
    ensures
        r == spec_col_matches(*f, *c),
{
    if f.name == c.name {
        match (&c.relation, &f.qualifier) {
            (Some(r), Some(q)) => *q == *r,
            (Some(_), None) => false,
            (None, _) => true,
        }
    } else {
        false
    }
}

impl DFSchema {
    /// The first field, in schema order, that answers the column reference.
    pub fn field_for(&self, c: &Column) -> (r: Option<&DFField>)
        ensures
            match spec_lookup_field(self.fields@, *c) {
                Some(f) => r matches Some(fr) && *fr == f,
                None => r is None,
            },
    {
        assert(self.fields@.subrange(0, self.fields@.len() as int) =~= self.fields@);
        self.field_for_from(c, 0)
    }

    fn field_for_from(&self, c: &Column, i: usize) -> (r: Option<&DFField>)
        requires
            i <= self.fields@.len(),
        ensures
            match spec_lookup_field(self.fields@.subrange(i as int, self.fields@.len() as int), *c) {
                Some(f) => r matches Some(fr) && *fr == f,
                None => r is None,
            },
        decreases self.fields@.len() - i,
    {
        let ghost suffix = self.fields@.subrange(i as int, self.fields@.len() as int);
        if i == self.fields.len() {
            None
        } else if col_matches(&self.fields[i], c) {
            assert(spec_col_matches(suffix[0], *c));
            Some(&self.fields[i])
        } else {
            assert(suffix.drop_first() =~= self.fields@.subrange(
                i as int + 1,
                self.fields@.len() as int,
            ));
            self.field_for_from(c, i + 1)
        }
    }
}

} // verus!
