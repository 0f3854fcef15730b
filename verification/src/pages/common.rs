//! What the identification screens share: reading the id the engine names,
//! copying lists of paths, and the files that photographs are written to.

use crate::entities::criminal_photo;
use crate::text::{append_decimal, decimal, parse_u32, parse_u32_spec};
use crate::{PhotoFile, PhotoFileView};
use vstd::prelude::*;

verus! {

/// The record id that the engine's words stand for: the number they write,
/// or 0, which no record has, where they write none.
pub open spec fn record_id(text: Seq<char>) -> u32 {
    match parse_u32_spec(text) {
        Some(id) => id,
        None => 0,
    }
}

/// Reads the record id out of what the engine named.
pub fn parse_record_id(text: &str) -> (id: u32)
    ensures
        id == record_id(text@),
{
    match parse_u32(text) {
        Some(id) => id,
        None => 0,
    }
}

/// A copy of a list of strings.
pub fn clone_strings(v: &Vec<String>) -> (copy: Vec<String>)
    ensures
        copy@ == v@,
{
    let mut copy: Vec<String> = Vec::new();
    let mut i: usize = 0;
    while i < v.len()
        invariant
            i <= v.len(),
            copy@ == v@.take(i as int),
        decreases v.len() - i,
    {
        copy.push(v[i].clone());
        assert(copy@ =~= v@.take(i + 1));
        i += 1;
    }
    assert(v@.take(i as int) =~= v@);
    copy
}

/// The name of the file that holds the `index`-th photograph of the person
/// `criminal_id`, inside the directory `dir`.
pub open spec fn photo_path(dir: Seq<char>, criminal_id: u32, index: nat) -> Seq<char> {
    dir + "/suspect_"@ + decimal(criminal_id as nat) + "_"@ + decimal(index) + ".jpg"@
}

/// The files to write for a list of photographs: each under the name that
/// its person and its place in the list give it, with its bytes unchanged.
pub open spec fn photo_files(dir: Seq<char>, photos: Seq<criminal_photo::Model>) -> Seq<
    PhotoFileView,
> {
    Seq::new(
        photos.len(),
        |i: int|
            PhotoFileView {
                path: photo_path(dir, photos[i].criminal_id, i as nat),
                bytes: photos[i].photo@,
            },
    )
}

/// The view of a list of files.
pub open spec fn files_view(files: Seq<PhotoFile>) -> Seq<PhotoFileView> {
    Seq::new(files.len(), |i: int| files[i]@)
}

/// Names the files that a list of photographs is written to.
pub fn name_photo_files(dir: &str, photos: Vec<criminal_photo::Model>) -> (files: Vec<PhotoFile>)
    ensures
        files_view(files@) == photo_files(dir@, photos@),
{
    let ghost all = photos@;
    let total = photos.len();
    let mut photos = photos;
    let mut files: Vec<PhotoFile> = Vec::new();
    let mut index: usize = 0;
    while photos.len() > 0
        invariant
            index + photos.len() == all.len(),
            all.len() == total,
            photos@ == all.skip(index as int),
            files.len() == index,
            forall|j: int|
                0 <= j < index ==> (#[trigger] files@[j])@ == photo_files(dir@, all)[j],
        decreases photos.len(),
    {
        let photo = photos.remove(0);
        assert(photo == all[index as int]);
        let mut path = String::from_str(dir);
        path.append("/suspect_");
        append_decimal(&mut path, photo.criminal_id as u64);
        path.append("_");
        append_decimal(&mut path, index as u64);
        path.append(".jpg");
        assert(path@ =~= photo_path(dir@, photo.criminal_id, index as nat));
        files.push(PhotoFile { path, bytes: photo.photo });
        index += 1;
        assert(photos@ =~= all.skip(index as int));
    }
    assert(files_view(files@) =~= photo_files(dir@, all));
    files
}

} // verus!
