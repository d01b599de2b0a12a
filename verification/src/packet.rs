//! The model of a parsed capture packet.
//!
//! The capture-parsing collaborator yields packets as named protocol layers,
//! each carrying named metadata fields; a field lookup returns either a
//! present value or nothing. Lookups return the first entry with the asked
//! name, as the collaborator's own lookup does.

use vstd::prelude::*;

verus! {

/// One named metadata field inside a protocol layer.
pub struct MetaField {
    pub name: String,
    pub value: String,
}

/// One named protocol layer of a packet.
pub struct Layer {
    pub name: String,
    pub fields: Vec<MetaField>,
}

/// One parsed packet: its protocol layers in capture order.
pub struct Packet {
    pub layers: Vec<Layer>,
}

/// The value of the first field named `name`, if any.
pub open spec fn field_lookup(fields: Seq<MetaField>, name: Seq<char>) -> Option<Seq<char>>
    decreases fields.len(),
{
    if fields.len() == 0 {
        None
    } else if fields[0].name@ == name {
        Some(fields[0].value@)
    } else {
        field_lookup(fields.skip(1), name)
    }
}

/// The first layer named `name`, if any.
pub open spec fn layer_lookup(layers: Seq<Layer>, name: Seq<char>) -> Option<Layer>
    decreases layers.len(),
{
    if layers.len() == 0 {
        None
    } else if layers[0].name@ == name {
        Some(layers[0])
    } else {
        layer_lookup(layers.skip(1), name)
    }
}

impl Layer {
    /// Look a metadata field up by name; the first match wins.
    pub fn metadata(&self, name: &str) -> (r: Option<&String>)
        ensures
            r is Some <==> field_lookup(self.fields@, name@) is Some,
            r matches Some(v) ==> field_lookup(self.fields@, name@) == Some(v@),
    {
        let key = String::from_str(name);
        let n = self.fields.len();
        let mut i: usize = 0;
        proof {
            assert(self.fields@.skip(0) =~= self.fields@);
        }
        while i < n
            invariant
                0 <= i <= n,
                n == self.fields@.len(),
                key@ == name@,
                field_lookup(self.fields@, name@) == field_lookup(
                    self.fields@.skip(i as int),
                    name@,
                ),
            decreases n - i,
        {
            proof {
                assert(self.fields@.skip(i as int)[0] == self.fields@[i as int]);
                assert(self.fields@.skip(i as int).skip(1) =~= self.fields@.skip(i as int + 1));
            }
            if self.fields[i].name == key {
                return Some(&self.fields[i].value);
            }
            i = i + 1;
        }
        None
    }
}

impl Packet {
    /// Look a protocol layer up by name; the first match wins.
    pub fn layer_name(&self, name: &str) -> (r: Option<&Layer>)
        ensures
            r is Some <==> layer_lookup(self.layers@, name@) is Some,
            r matches Some(l) ==> layer_lookup(self.layers@, name@) == Some(*l),
    {
        let key = String::from_str(name);
        let n = self.layers.len();
        let mut i: usize = 0;
        proof {
            assert(self.layers@.skip(0) =~= self.layers@);
        }
        while i < n
            invariant
                0 <= i <= n,
                n == self.layers@.len(),
                key@ == name@,
                layer_lookup(self.layers@, name@) == layer_lookup(
                    self.layers@.skip(i as int),
                    name@,
                ),
            decreases n - i,
        {
            proof {
                assert(self.layers@.skip(i as int)[0] == self.layers@[i as int]);
                assert(self.layers@.skip(i as int).skip(1) =~= self.layers@.skip(i as int + 1));
            }
            if self.layers[i].name == key {
                return Some(&self.layers[i]);
            }
            i = i + 1;
        }
        None
    }
}

} // verus!
