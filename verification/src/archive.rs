//! Zip archives, as the importer reads them and the exporter writes them.
//! The `zip` crate does the reading and writing; what it gives back for given
//! bytes is named here, and the library's own steps around it are verified.

use vstd::prelude::*;
use std::io::{Cursor, Read, Write};
use zip::write::SimpleFileOptions;
use zip::{CompressionMethod, ZipArchive, ZipWriter};

use crate::import::is_json_entry;
use crate::text::{lower_case_of, opt_view, push_str, spec_ends_with, string_of, strings_view};

verus! {

/// The names of the entries of the zip archive `zip` that `zip` can open, in
/// archive order, or the error text when the bytes are not an archive.
pub uninterp spec fn zip_names_of(zip: Seq<u8>) -> Result<Seq<Seq<char>>, Seq<char>>;

/// The contents of the entry called `name` of the archive `zip`, or the
/// error text when it cannot be read.
pub uninterp spec fn zip_entry_of(zip: Seq<u8>, name: Seq<char>) -> Result<Seq<u8>, Seq<char>>;

/// The archive the `zip` crate writes for `entries` (name, contents), each
/// deflated, in order; or the error text when it refuses one.
pub uninterp spec fn zip_packed_of(entries: Seq<(Seq<char>, Seq<u8>)>) -> Result<Seq<u8>, Seq<char>>;

/// `ZipArchive::new` on the bytes, then `by_index(i).name()` for each entry
/// that opens. Claims: the outcome is `zip_names_of(zip)`, errors as their
/// `Display` text.
#[verifier::external_body]
fn zip_entry_names(zip: &Vec<u8>) -> (r: Result<Vec<String>, String>)
    ensures
        match r {
            Ok(v) => zip_names_of(zip@) == Ok::<Seq<Seq<char>>, Seq<char>>(strings_view(v@)),
            Err(e) => zip_names_of(zip@) == Err::<Seq<Seq<char>>, Seq<char>>(e@),
        },
{
    let mut archive = ZipArchive::new(Cursor::new(zip.as_slice())).map_err(|e| e.to_string())?;
    Ok((0..archive.len()).filter_map(|i| archive.by_index(i).ok().map(|f| f.name().to_string())).collect())
}

/// `ZipArchive::new`, `by_name(name)` and `read_to_end`. Claims: the outcome
/// is `zip_entry_of(zip, name)`, errors as their `Display` text.
#[verifier::external_body]
fn zip_read_entry(zip: &Vec<u8>, name: &str) -> (r: Result<Vec<u8>, String>)
    ensures
        match r {
            Ok(b) => zip_entry_of(zip@, name@) == Ok::<Seq<u8>, Seq<char>>(b@),
            Err(e) => zip_entry_of(zip@, name@) == Err::<Seq<u8>, Seq<char>>(e@),
        },
{
    let mut archive = ZipArchive::new(Cursor::new(zip.as_slice())).map_err(|e| e.to_string())?;
    let mut file = archive.by_name(name).map_err(|e| e.to_string())?;
    let mut buf = Vec::new();
    file.read_to_end(&mut buf).map_err(|e| e.to_string())?;
    Ok(buf)
}

pub open spec fn entries_view(entries: Seq<(String, Vec<u8>)>) -> Seq<(Seq<char>, Seq<u8>)> {
    entries.map_values(|e: (String, Vec<u8>)| (e.0@, e.1@))
}

/// `ZipWriter::start_file` and `write_all` for each entry, deflated, then
/// `finish`. Claims: the outcome is `zip_packed_of(entries)`, errors as their
/// `Display` text.
#[verifier::external_body]
fn zip_pack(entries: &Vec<(String, Vec<u8>)>) -> (r: Result<Vec<u8>, String>)
    ensures
        match r {
            Ok(b) => zip_packed_of(entries_view(entries@)) == Ok::<Seq<u8>, Seq<char>>(b@),
            Err(e) => zip_packed_of(entries_view(entries@)) == Err::<Seq<u8>, Seq<char>>(e@),
        },
{
    let mut writer = ZipWriter::new(Cursor::new(Vec::new()));
    let options = SimpleFileOptions::default().compression_method(CompressionMethod::Deflated);
    for (name, bytes) in entries {
        writer.start_file(name.as_str(), options).map_err(|e| e.to_string())?;
        writer.write_all(bytes).map_err(|e| e.to_string())?;
    }
    Ok(writer.finish().map_err(|e| e.to_string())?.into_inner())
}

fn prefixed(prefix: &str, detail: &str) -> (r: String)
    ensures
        r@ == prefix@ + detail@,
{
    let mut out: Vec<char> = Vec::new();
    push_str(&mut out, prefix);
    push_str(&mut out, detail);
    string_of(&out)
}

/// The first name of `names` that is a JSON file, if any.
pub open spec fn first_json(names: Seq<Seq<char>>) -> Option<Seq<char>>
    decreases names.len(),
{
    if names.len() == 0 {
        None
    } else if spec_ends_with(lower_case_of(names[0]), ".json"@) {
        Some(names[0])
    } else {
        first_json(names.drop_first())
    }
}

/// The first of the archive's entry names that is a JSON file (ends in
/// `.json` in any case), if any.
pub fn first_json_entry(names: &Vec<String>) -> (r: Option<String>)
    ensures
        opt_view(r) == first_json(strings_view(names@)),
{
    let ghost nv = strings_view(names@);
    let mut i: usize = 0;
    assert(nv.subrange(0, nv.len() as int) =~= nv);
    while i < names.len()
        invariant
            i <= names.len(),
            nv == strings_view(names@),
            first_json(nv) == first_json(nv.subrange(i as int, nv.len() as int)),
        decreases names.len() - i,
    {
        assert(nv.subrange(i as int, nv.len() as int)[0] == names@[i as int]@);
        if is_json_entry(names[i].as_str()) {
            let found = names[i].clone();
            assert(first_json(nv.subrange(i as int, nv.len() as int)) == Some(nv[i as int]));
            return Some(found);
        }
        assert(nv.subrange(i as int, nv.len() as int).drop_first() =~= nv.subrange(
            i + 1,
            nv.len() as int,
        ));
        i = i + 1;
    }
    assert(nv.subrange(i as int, nv.len() as int) =~= Seq::<Seq<char>>::empty());
    None
}

/// The name of the export's JSON file in an uploaded archive: the first entry
/// whose name ends in `.json` in any case. Errors: the bytes are not a zip
/// archive ("Not a valid zip file: …"), or no entry is a JSON file.
pub fn find_export_json(zip: &Vec<u8>) -> (r: Result<String, String>)
    ensures
        match zip_names_of(zip@) {
            Err(e) => r matches Err(m) && m@ == "Not a valid zip file: "@ + e,
            Ok(names) => match first_json(names) {
                Some(n) => r matches Ok(s) && s@ == n,
                None => r matches Err(m) && m@ == "No .json file found in the zip"@,
            },
        },
{
    let names = match zip_entry_names(zip) {
        Ok(v) => v,
        Err(e) => {
            return Err(prefixed("Not a valid zip file: ", e.as_str()));
        },
    };
    match first_json_entry(&names) {
        Some(n) => Ok(n),
        None => Err("No .json file found in the zip".to_string()),
    }
}

/// The bytes of the archive entry `name`; on failure the error reads
/// "Failed to read {name}: …".
pub fn read_entry(zip: &Vec<u8>, name: &str) -> (r: Result<Vec<u8>, String>)
    ensures
        match zip_entry_of(zip@, name@) {
            Ok(b) => r matches Ok(v) && v@ == b,
            Err(e) => r matches Err(m) && m@ == "Failed to read "@ + name@ + ": "@ + e,
        },
{
    match zip_read_entry(zip, name) {
        Ok(b) => Ok(b),
        Err(e) => {
            let mut out: Vec<char> = Vec::new();
            push_str(&mut out, "Failed to read ");
            push_str(&mut out, name);
            push_str(&mut out, ": ");
            push_str(&mut out, e.as_str());
            Err(string_of(&out))
        },
    }
}

/// The export archive: `export.json` first, then each photo under its path
/// in the archive.
pub open spec fn export_entries(json: Seq<u8>, photos: Seq<(Seq<char>, Seq<u8>)>) -> Seq<(Seq<char>, Seq<u8>)> {
    seq![("export.json"@, json)] + photos
}

/// Packs an export: the JSON document and the photos that could be read.
pub fn pack_export(json: Vec<u8>, photos: Vec<(String, Vec<u8>)>) -> (r: Result<Vec<u8>, String>)
    ensures
        match zip_packed_of(export_entries(json@, entries_view(photos@))) {
            Ok(b) => r matches Ok(v) && v@ == b,
            Err(e) => r matches Err(m) && m@ == e,
        },
{
    let ghost jv = json@;
    let ghost pv = entries_view(photos@);
    let mut entries: Vec<(String, Vec<u8>)> = Vec::new();
    entries.push(("export.json".to_string(), json));
    let mut i: usize = 0;
    let mut photos = photos;
    let ghost orig = photos@;
    let n = photos.len();
    assert(orig.subrange(0, orig.len() as int) =~= orig);
    while i < n
        invariant
            n == orig.len(),
            0 <= i <= orig.len(),
            photos@ == orig.subrange(i as int, orig.len() as int),
            pv == entries_view(orig),
            entries_view(entries@) == seq![("export.json"@, jv)] + pv.take(i as int),
        decreases orig.len() - i,
    {
        let e = photos.remove(0);
        assert(e == orig[i as int]);
        let ghost before = entries@;
        entries.push(e);
        assert(entries@ == before.push(e));
        assert(entries_view(entries@) =~= entries_view(before).push((e.0@, e.1@)));
        assert(pv.take(i + 1) =~= pv.take(i as int).push(pv[i as int]));
        assert(pv[i as int] == (e.0@, e.1@));
        assert(photos@ =~= orig.subrange(i + 1, orig.len() as int));
        assert(entries_view(entries@) =~= seq![("export.json"@, jv)] + pv.take(i + 1));
        i = i + 1;
    }
    assert(pv.take(orig.len() as int) =~= pv);
    zip_pack(&entries)
}

} // verus!
