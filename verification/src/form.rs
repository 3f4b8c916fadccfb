//! Submitted HTML forms, read as a list of name/value pairs.

use vstd::prelude::*;

use crate::text::{
    chars_eq, chars_of, decimal_i64, opt_view, push_all, push_str, spec_decimal, spec_trim,
    string_of, trim,
};

verus! {

/// The fields of a form as plain text pairs.
pub open spec fn fields_view(f: Seq<(String, String)>) -> Seq<(Seq<char>, Seq<char>)> {
    f.map_values(|p: (String, String)| (p.0@, p.1@))
}

/// The value of the first field named `key`.
pub open spec fn form_get(f: Seq<(Seq<char>, Seq<char>)>, key: Seq<char>) -> Option<Seq<char>>
    decreases f.len(),
{
    if f.len() == 0 {
        None
    } else if f[0].0 == key {
        Some(f[0].1)
    } else {
        form_get(f.drop_first(), key)
    }
}

/// The value of the field named `key`, if the form has one.
pub fn field(fields: &Vec<(String, String)>, key: &Vec<char>) -> (r: Option<String>)
    ensures
        opt_view(r) == form_get(fields_view(fields@), key@),
{
    let ghost fv = fields_view(fields@);
    let mut i: usize = 0;
    assert(fv.subrange(0, fv.len() as int) =~= fv);
    while i < fields.len()
        invariant
            i <= fields.len(),
            fv == fields_view(fields@),
            form_get(fv, key@) == form_get(fv.subrange(i as int, fv.len() as int), key@),
        decreases fields.len() - i,
    {
        let name = chars_of(fields[i].0.as_str());
        assert(fv.subrange(i as int, fv.len() as int)[0] == fv[i as int]);
        if chars_eq(&name, key) {
            return Some(fields[i].1.clone());
        }
        assert(fv.subrange(i as int, fv.len() as int).drop_first() =~= fv.subrange(
            i + 1,
            fv.len() as int,
        ));
        i = i + 1;
    }
    None
}

/// Whether the form has a field named `key` (a ticked checkbox).
pub fn has_field(fields: &Vec<(String, String)>, key: &Vec<char>) -> (r: bool)
    ensures
        r == form_get(fields_view(fields@), key@) is Some,
{
    field(fields, key).is_some()
}

/// The name of a field made for one record: a prefix and the record's id.
pub open spec fn id_key(prefix: Seq<char>, id: int) -> Seq<char> {
    prefix + spec_decimal(id)
}

pub fn key_for(prefix: &str, id: i64) -> (r: Vec<char>)
    ensures
        r@ == id_key(prefix@, id as int),
{
    let mut out: Vec<char> = Vec::new();
    push_str(&mut out, prefix);
    let d = decimal_i64(id);
    push_all(&mut out, &d);
    out
}

/// A text trimmed, or `None` when nothing but white space is left.
pub open spec fn spec_nonblank(o: Option<Seq<char>>) -> Option<Seq<char>> {
    match o {
        Some(s) => if spec_trim(s).len() > 0 {
            Some(spec_trim(s))
        } else {
            None
        },
        None => None,
    }
}

pub fn nonblank(o: &Option<String>) -> (r: Option<String>)
    ensures
        opt_view(r) == spec_nonblank(opt_view(*o)),
{
    match o {
        Some(s) => {
            let c = chars_of(s.as_str());
            let t = trim(&c);
            if t.len() > 0 {
                Some(string_of(&t))
            } else {
                None
            }
        },
        None => None,
    }
}

} // verus!
