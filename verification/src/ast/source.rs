//! Abstract sources of rule patterns.
use vstd::prelude::*;
use crate::ast::opaque::Schema;
use crate::plan::SourceNode;

verus! {

/// An abstract table: it matches any plan whose schema its own schema accepts.
pub type Source = SourceNode;

impl SourceNode {
    pub fn new(table_name: String, schema: Schema) -> (r: Self)
        ensures
            r.table_name@ == table_name@,
            r.schema@ == schema@,
    {
        SourceNode { table_name, schema }
    }
}

} // verus!
