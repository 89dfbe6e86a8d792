//! Abstract types, fields and schemas of rule patterns.
use vstd::prelude::*;
use crate::text::{decimal, owned, push_decimal};

verus! {

/// Abstract column type.
#[derive(Debug)]
pub enum Type {
    /// Built-in boolean type for predicates.
    Boolean,
    /// Generic abstract type that can stand for any concrete type.
    Generic { id: String },
}

pub enum SpecType {
    Boolean,
    Generic { id: Seq<char> },
}

impl View for Type {
    type V = SpecType;

    open spec fn view(&self) -> SpecType {
        match self {
            Type::Boolean => SpecType::Boolean,
            Type::Generic { id } => SpecType::Generic { id: id@ },
        }
    }
}

/// The engine data type that an abstract type maps to: booleans stay boolean,
/// every generic type is carried as binary data.
pub open spec fn spec_type_data_type(t: SpecType) -> Seq<char> {
    match t {
        SpecType::Boolean => seq!['B', 'o', 'o', 'l', 'e', 'a', 'n'],
        SpecType::Generic { .. } => seq!['B', 'i', 'n', 'a', 'r', 'y'],
    }
}

impl Clone for Type {
    fn clone(&self) -> (r: Self)
        ensures
            r@ == self@,
    {
        match self {
            Type::Boolean => Type::Boolean,
            Type::Generic { id } => Type::Generic { id: id.clone() },
        }
    }
}

impl Type {
    /// Structural equality of two abstract types.
    pub fn same_as(&self, other: &Type) -> (r: bool)
        ensures
            r == (self@ == other@),
    {
        match (self, other) {
            (Type::Boolean, Type::Boolean) => true,
            (Type::Generic { id: a }, Type::Generic { id: b }) => *a == *b,
            _ => false,
        }
    }

    /// The engine data type name of this abstract type.
    pub fn data_type(&self) -> (r: String)
        ensures
            r@ == spec_type_data_type(self@),
    {
        match self {
            Type::Boolean => {
                let r = owned("Boolean");
                proof { reveal_strlit("Boolean"); }
                assert(r@ =~= spec_type_data_type(self@));
                r
            }
            Type::Generic { .. } => {
                let r = owned("Binary");
                proof { reveal_strlit("Binary"); }
                assert(r@ =~= spec_type_data_type(self@));
                r
            }
        }
    }
}

/// A named, typed field of an abstract schema.
#[derive(Debug)]
pub struct Field {
    pub name: String,
    pub data_type: Type,
    pub nullable: bool,
}

pub struct SpecField {
    pub name: Seq<char>,
    pub data_type: SpecType,
    pub nullable: bool,
}

impl View for Field {
    type V = SpecField;

    open spec fn view(&self) -> SpecField {
        SpecField { name: self.name@, data_type: self.data_type@, nullable: self.nullable }
    }
}

impl Clone for Field {
    fn clone(&self) -> (r: Self)
        ensures
            r@ == self@,
    {
        Field { name: self.name.clone(), data_type: self.data_type.clone(), nullable: self.nullable }
    }
}

impl Field {
    pub fn same_as(&self, other: &Field) -> (r: bool)
        ensures
            r == (self@ == other@),
    {
        self.name == other.name && self.data_type.same_as(&other.data_type)
            && self.nullable == other.nullable
    }
}

/// An abstract schema: an ordered list of abstract fields.
#[derive(Debug)]
pub struct Schema {
    pub fields: Vec<Field>,
}

pub struct SpecSchema {
    pub fields: Seq<SpecField>,
}

impl View for Schema {
    type V = SpecSchema;

    open spec fn view(&self) -> SpecSchema {
        SpecSchema { fields: self.fields@.map_values(|f: Field| f@) }
    }
}

/// The name that `Schema::from_types` gives to the field at position `i`.
pub open spec fn positional_field_name(i: nat) -> Seq<char> {
    seq!['f', 'i', 'e', 'l', 'd', '_'] + decimal(i)
}

/// The schema `Schema::from_types` builds: one nullable field per type, named by position.
pub open spec fn spec_schema_from_types(types: Seq<SpecType>) -> SpecSchema {
    SpecSchema {
        fields: Seq::new(
            types.len(),
            |i: int| SpecField { name: positional_field_name(i as nat), data_type: types[i], nullable: true },
        ),
    }
}

pub fn clone_fields(v: &Vec<Field>) -> (r: Vec<Field>)
    ensures
        r@.map_values(|f: Field| f@) == v@.map_values(|f: Field| f@),
{
    let mut r: Vec<Field> = Vec::new();
    let mut i: usize = 0;
    while i < v.len()
        invariant
            i <= v.len(),
            r@.len() == i,
            forall|j: int| 0 <= j < i ==> #[trigger] r@[j]@ == v@[j]@,
        decreases v.len() - i,
    {
        r.push(v[i].clone());
        i += 1;
    }
    assert(r@.map_values(|f: Field| f@) =~= v@.map_values(|f: Field| f@));
    r
}

impl Clone for Schema {
    fn clone(&self) -> (r: Self)
        ensures
            r@ == self@,
    {
        Schema { fields: clone_fields(&self.fields) }
    }
}

/// Builds `"field_" + decimal(i)`.
pub fn positional_name(i: usize) -> (r: String)
    ensures
        r@ == positional_field_name(i as nat),
{
    let mut r = owned("field_");
    proof { reveal_strlit("field_"); }
    push_decimal(&mut r, i as u64);
    assert(r@ =~= positional_field_name(i as nat));
    r
}

impl Schema {
    /// Builds a schema with one nullable field per given type, named `field_0`, `field_1`, ...
    pub fn from_types(types: Vec<Type>) -> (r: Self)
        ensures
            r@ == spec_schema_from_types(types@.map_values(|t: Type| t@)),
    {
        let mut fields: Vec<Field> = Vec::new();
        let mut i: usize = 0;
        while i < types.len()
            invariant
                i <= types.len(),
                fields@.len() == i,
                forall|j: int| 0 <= j < i ==> #[trigger] fields@[j]@ == (SpecField {
                    name: positional_field_name(j as nat),
                    data_type: types@[j]@,
                    nullable: true,
                }),
            decreases types.len() - i,
        {
            let name = positional_name(i);
            fields.push(Field { name, data_type: types[i].clone(), nullable: true });
            i += 1;
        }
        let r = Schema { fields };
        assert(r@.fields =~= spec_schema_from_types(types@.map_values(|t: Type| t@)).fields);
        r
    }

    /// The number of fields.
    pub fn field_count(&self) -> (r: usize)
        ensures
            r == self@.fields.len(),
    {
        self.fields.len()
    }

    pub fn same_as(&self, other: &Schema) -> (r: bool)
        ensures
            r == (self@ == other@),
    {
        if self.fields.len() != other.fields.len() {
            assert(self@.fields.len() != other@.fields.len());
            return false;
        }
        let mut i: usize = 0;
        while i < self.fields.len()
            invariant
                i <= self.fields.len(),
                self.fields.len() == other.fields.len(),
                forall|j: int| 0 <= j < i ==> #[trigger] self.fields@[j]@ == other.fields@[j]@,
            decreases self.fields.len() - i,
        {
            if !self.fields[i].same_as(&other.fields[i]) {
                assert(self@.fields[i as int] != other@.fields[i as int]);
                return false;
            }
            i += 1;
        }
        assert(self@.fields =~= other@.fields);
        true
    }
}

} // verus!
