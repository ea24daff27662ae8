//! Conversion of journal entries into posts: for each entry, the post folder
//! named by the reformatted timestamp, the photo copies to perform, and the
//! rendered markdown document.
use vstd::prelude::*;
use crate::model::{entry_photos, location_text, weather_text, Entry, Export, Photo};
use crate::stamp::{format_timestamp, rfc3339_stamp};
use crate::text::{replace_all, spec_replace};

verus! {

/// The placeholder token embedded in entry text for the photo with this
/// identifier.
pub open spec fn placeholder_of(identifier: Seq<char>) -> Seq<char> {
    "dayone-moment://"@ + identifier
}

/// `<md5>.<kind>`, the local filename of a photo.
pub open spec fn file_name_of(md5: Seq<char>, kind: Seq<char>) -> Seq<char> {
    md5 + "."@ + kind
}

/// `text` after replacing, for each photo in order, every occurrence of its
/// placeholder with its local filename.
pub open spec fn rewrite_text(text: Seq<char>, photos: Seq<Photo>) -> Seq<char>
    decreases photos.len(),
{
    if photos.len() == 0 {
        text
    } else {
        rewrite_text(
            spec_replace(
                text,
                placeholder_of(photos[0].identifier@),
                file_name_of(photos[0].md5@, photos[0].kind@),
            ),
            photos.skip(1),
        )
    }
}

/// The rendered markdown document: a leading blank line, a front-matter block
/// holding only the date, the location/weather summary line, the rewritten
/// text, and the `<!-- more -->` marker with its trailing whitespace.
pub open spec fn spec_document(
    stamp: Seq<char>,
    location: Seq<char>,
    weather: Seq<char>,
    text: Seq<char>,
) -> Seq<char> {
    "\n+++\ndate = "@ + stamp + "\n+++\nLocation: "@ + location + " - Weather: "@ + weather + "\n"@
        + text + "\n\n<!-- more -->\n    "@
}

/// One photo copy the caller must perform, from `source` to `dest`.
pub struct PhotoCopy {
    pub source: String,
    pub dest: String,
}

/// Everything to be written for one entry: the post folder, the photo copies
/// into it, and the `index.md` document.
pub struct Post {
    pub folder: String,
    pub copies: Vec<PhotoCopy>,
    pub document: String,
}

/// Why an entry cannot be converted.
#[derive(Debug, Clone, Copy, PartialEq, Eq, Structural)]
pub enum ConvertError {
    InvalidDate,
}

impl Post {
    /// The path of the markdown file inside the post folder.
    pub fn index_path(&self) -> (r: String)
        ensures
            r@ == self.folder@ + "/index.md"@,
    {
        let mut p = self.folder.clone();
        p.append("/index.md");
        p
    }
}

/// The relation between an entry and its converted post.
pub open spec fn post_ok(
    p: Post,
    e: Entry,
    content_folder: Seq<char>,
    journal_folder: Seq<char>,
) -> bool {
    let stamp = rfc3339_stamp(e.date@)->0;
    let photos = entry_photos(e);
    &&& rfc3339_stamp(e.date@) is Some
    &&& p.folder@ == content_folder + "/"@ + stamp
    &&& p.copies@.len() == photos.len()
    &&& (forall|i: int|
        0 <= i < photos.len() ==> {
            let name = file_name_of(photos[i].md5@, photos[i].kind@);
            &&& (#[trigger] p.copies@[i]).source@ == journal_folder + "/photos/"@ + name
            &&& p.copies@[i].dest@ == p.folder@ + "/"@ + name
        })
    &&& p.document@ == spec_document(
        stamp,
        location_text(e),
        weather_text(e),
        rewrite_text(e.text@, photos),
    )
}

/// Converts one entry. Fails exactly when the entry's date is not a
/// well-formed RFC 3339 timestamp; otherwise the post satisfies `post_ok`.
pub fn convert_entry(entry: &Entry, content_folder: &str, journal_folder: &str) -> (r: Result<
    Post,
    ConvertError,
>)
    ensures
        r is Ok <==> rfc3339_stamp(entry.date@) is Some,
        r matches Ok(p) ==> post_ok(p, *entry, content_folder@, journal_folder@),
        r matches Err(e) ==> e == ConvertError::InvalidDate,
{
    let stamp = match format_timestamp(entry.date.as_str()) {
        Some(s) => s,
        None => {
            return Err(ConvertError::InvalidDate);
        },
    };
    let mut folder = String::from_str(content_folder);
    folder.append("/");
    folder.append(stamp.as_str());

    let mut text = entry.text.clone();
    let mut copies: Vec<PhotoCopy> = Vec::new();
    match &entry.photos {
        Some(photos) => {
            let ghost phs = entry_photos(*entry);
            proof {
                assert(phs.skip(0) =~= phs);
            }
            let mut k: usize = 0;
            while k < photos.len()
                invariant
                    k <= phs.len(),
                    photos@ == phs,
                    phs == entry_photos(*entry),
                    copies@.len() == k,
                    folder@ == content_folder@ + "/"@ + stamp@,
                    forall|i: int|
                        0 <= i < k ==> {
                            let name = file_name_of(phs[i].md5@, phs[i].kind@);
                            &&& (#[trigger] copies@[i]).source@ == journal_folder@ + "/photos/"@
                                + name
                            &&& copies@[i].dest@ == folder@ + "/"@ + name
                        },
                    rewrite_text(text@, phs.skip(k as int)) == rewrite_text(entry.text@, phs),
                decreases phs.len() - k,
            {
                let photo = &photos[k];
                let mut placeholder = String::from_str("dayone-moment://");
                placeholder.append(photo.identifier.as_str());
                let mut name = String::from_str(photo.md5.as_str());
                name.append(".");
                name.append(photo.kind.as_str());
                let mut source = String::from_str(journal_folder);
                source.append("/photos/");
                source.append(name.as_str());
                let mut dest = String::from_str(folder.as_str());
                dest.append("/");
                dest.append(name.as_str());
                copies.push(PhotoCopy { source, dest });
                proof {
                    reveal_strlit("dayone-moment://");
                    assert(placeholder@.len() > 0);
                }
                let ghost pre = text@;
                text = replace_all(text.as_str(), placeholder.as_str(), name.as_str());
                proof {
                    let rest = phs.skip(k as int);
                    assert(rest[0] == phs[k as int]);
                    assert(rest.skip(1) =~= phs.skip(k as int + 1));
                    assert(rewrite_text(pre, rest) == rewrite_text(
                        spec_replace(
                            pre,
                            placeholder_of(phs[k as int].identifier@),
                            file_name_of(phs[k as int].md5@, phs[k as int].kind@),
                        ),
                        phs.skip(k as int + 1),
                    ));
                }
                k += 1;
            }
            proof {
                assert(phs.skip(phs.len() as int) =~= Seq::<Photo>::empty());
                assert(text@ == rewrite_text(entry.text@, entry_photos(*entry)));
            }
        },
        None => {
            proof {
                assert(entry_photos(*entry) =~= Seq::<Photo>::empty());
                assert(text@ == rewrite_text(entry.text@, entry_photos(*entry)));
            }
        },
    }
    let location_string = match &entry.location {
        Some(l) => l.display_string(),
        None => String::new(),
    };
    let weather_string = match &entry.weather {
        Some(w) => w.display_string(),
        None => String::new(),
    };
    let mut document = String::from_str("\n+++\ndate = ");
    document.append(stamp.as_str());
    document.append("\n+++\nLocation: ");
    document.append(location_string.as_str());
    document.append(" - Weather: ");
    document.append(weather_string.as_str());
    document.append("\n");
    document.append(text.as_str());
    document.append("\n\n<!-- more -->\n    ");
    let post = Post { folder, copies, document };
    proof {
        assert(post_ok(post, *entry, content_folder@, journal_folder@));
    }
    Ok(post)
}

/// The path of the content root: `<export-parent>/content`.
pub fn content_folder_path(export_path: &str) -> (r: String)
    ensures
        r@ == export_path@ + "/content"@,
{
    let mut p = String::from_str(export_path);
    p.append("/content");
    p
}

/// Everything to be written for a whole export: the content root and one post
/// per entry, in entry order.
pub struct Plan {
    pub content_folder: String,
    pub posts: Vec<Post>,
}

/// The relation between an export and its conversion plan.
pub open spec fn plan_ok(
    plan: Plan,
    export: Export,
    journal_folder: Seq<char>,
    export_path: Seq<char>,
) -> bool {
    &&& plan.content_folder@ == export_path + "/content"@
    &&& plan.posts@.len() == export.entries@.len()
    &&& (forall|i: int|
        0 <= i < export.entries@.len() ==> post_ok(
            #[trigger] plan.posts@[i],
            export.entries@[i],
            plan.content_folder@,
            journal_folder,
        ))
}

/// Converts a whole export. Succeeds exactly when every entry's date is a
/// well-formed RFC 3339 timestamp; the plan then pairs each entry, in order,
/// with its converted post.
pub fn convert_to_zola(export: &Export, journal_folder: &str, export_path: &str) -> (r: Result<
    Plan,
    ConvertError,
>)
    ensures
        r is Ok <==> (forall|i: int|
            0 <= i < export.entries@.len() ==> rfc3339_stamp(
                #[trigger] export.entries@[i].date@,
            ) is Some),
        r matches Ok(plan) ==> plan_ok(plan, *export, journal_folder@, export_path@),
        r matches Err(e) ==> e == ConvertError::InvalidDate,
{
    let content_folder = content_folder_path(export_path);
    let mut posts: Vec<Post> = Vec::new();
    let mut i: usize = 0;
    while i < export.entries.len()
        invariant
            i <= export.entries@.len(),
            content_folder@ == export_path@ + "/content"@,
            posts@.len() == i,
            forall|j: int|
                0 <= j < i ==> rfc3339_stamp(#[trigger] export.entries@[j].date@) is Some,
            forall|j: int|
                0 <= j < i ==> post_ok(
                    #[trigger] posts@[j],
                    export.entries@[j],
                    content_folder@,
                    journal_folder@,
                ),
        decreases export.entries@.len() - i,
    {
        let entry = &export.entries[i];
        match convert_entry(entry, content_folder.as_str(), journal_folder) {
            Ok(p) => {
                posts.push(p);
            },
            Err(e) => {
                proof {
                    assert(rfc3339_stamp(export.entries@[i as int].date@) is None);
                }
                return Err(e);
            },
        }
        i += 1;
    }
    Ok(Plan { content_folder, posts })
}

} // verus!
