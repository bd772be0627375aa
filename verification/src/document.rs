//! The document model of the backing store.
//!
//! A stored record is a *document*: an ordered list of named fields, each
//! holding either text or a binary blob tagged with a subtype byte. The
//! backend never relies on field order beyond "first occurrence of a name
//! wins", which is what [`spec_lookup`] states.

use vstd::prelude::*;

verus! {

/// The subtype tag of a generic (uninterpreted) binary blob.
pub const SUBTYPE_GENERIC: u8 = 0;

/// The mathematical value of one field: text or a tagged binary blob.
pub enum ValueView {
    Text(Seq<char>),
    Blob { subtype: u8, bytes: Seq<u8> },
}

/// The mathematical value of one named field.
pub struct FieldView {
    pub name: Seq<char>,
    pub value: ValueView,
}

/// One field value of a document.
pub enum FieldValue {
    Text(String),
    Blob { subtype: u8, bytes: Vec<u8> },
}

/// One named field of a document.
pub struct Field {
    pub name: String,
    pub value: FieldValue,
}

/// A stored document: an ordered list of named fields.
pub struct Document {
    pub fields: Vec<Field>,
}

impl View for FieldValue {
    type V = ValueView;

    open spec fn view(&self) -> ValueView {
        match self {
            FieldValue::Text(s) => ValueView::Text(s@),
            FieldValue::Blob { subtype, bytes } => ValueView::Blob {
                subtype: *subtype,
                bytes: bytes@,
            },
        }
    }
}

impl View for Field {
    type V = FieldView;

    open spec fn view(&self) -> FieldView {
        FieldView { name: self.name@, value: self.value@ }
    }
}

impl View for Document {
    type V = Seq<FieldView>;

    open spec fn view(&self) -> Seq<FieldView> {
        Seq::new(self.fields.len() as nat, |i: int| self.fields[i]@)
    }
}

/// The value of the first field named `name`, if any.
pub open spec fn spec_lookup(fields: Seq<FieldView>, name: Seq<char>) -> Option<ValueView>
    decreases fields.len(),
{
    if fields.len() == 0 {
        None
    } else if fields[0].name == name {
        Some(fields[0].value)
    } else {
        spec_lookup(fields.drop_first(), name)
    }
}

impl Document {
    /// A document with no fields.
    pub fn new() -> (d: Document)
        ensures
            d@ == Seq::<FieldView>::empty(),
    {
        let d = Document { fields: Vec::new() };
        proof {
            assert(d@ =~= Seq::<FieldView>::empty());
        }
        d
    }

    /// Appends a field; later lookups still prefer earlier fields of the
    /// same name.
    pub fn push_field(&mut self, name: String, value: FieldValue)
        ensures
            final(self)@ == old(self)@.push(FieldView { name: name@, value: value@ }),
    {
        let ghost prev = self@;
        self.fields.push(Field { name, value });
        proof {
            assert(self@ =~= prev.push(self@[prev.len() as int]));
        }
    }

    /// The value of the first field named `name`, if any.
    pub fn lookup(&self, name: &String) -> (r: Option<&FieldValue>)
        ensures
            match r {
                Some(v) => spec_lookup(self@, name@) == Some(v@),
                None => spec_lookup(self@, name@) is None,
            },
    {
        let n = self.fields.len();
        let mut i: usize = 0;
        proof {
            assert(self@.skip(0) =~= self@);
        }
        while i < n
            invariant
                n == self.fields.len(),
                i <= n,
                spec_lookup(self@, name@) == spec_lookup(self@.skip(i as int), name@),
            decreases n - i,
        {
            proof {
                assert(self@.skip(i as int)[0] == self@[i as int]);
                assert(self@.skip(i as int).drop_first() =~= self@.skip(i as int + 1));
            }
            if self.fields[i].name == *name {
                return Some(&self.fields[i].value);
            }
            i += 1;
        }
        proof {
            assert(self@.skip(n as int) =~= Seq::<FieldView>::empty());
        }
        None
    }
}

/// A copy of a byte vector, byte for byte.
pub fn copy_bytes(src: &Vec<u8>) -> (r: Vec<u8>)
    ensures
        r@ == src@,
{
    let mut r: Vec<u8> = Vec::new();
    let mut i: usize = 0;
    while i < src.len()
        invariant
            i <= src.len(),
            r@ == src@.subrange(0, i as int),
        decreases src.len() - i,
    {
        r.push(src[i]);
        proof {
            assert(r@ =~= src@.subrange(0, i as int + 1));
        }
        i += 1;
    }
    proof {
        assert(r@ =~= src@);
    }
    r
}

} // verus!
