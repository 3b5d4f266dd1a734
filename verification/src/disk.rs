//! The storage-info provider: picks the mounted removable medium out of the
//! machine's mount list, and digs the installed Slippi Nintendont version out
//! of the `meta.xml` metadata files found on it.
//!
//! Enumerating disks and reading files is plain I/O and happens outside the
//! library; this module holds the decisions made on what was read. XML is
//! taken apart by the `kiss_xml` crate behind a single trusted wrapper.

use vstd::prelude::*;
use vstd::utf8::is_ascii_chars;

verus! {

/// The text extracted by `kiss_xml` for a tag: parse the document, take the
/// root element's first child element named `tag`, and flatten its text.
/// `None` when the document does not parse or no such child exists. The
/// result depends on the document text and the tag alone. Spoken of only
/// for ASCII documents (see [`child_text_of`]).
pub uninterp spec fn meta_child_text(xml: Seq<char>, tag: Seq<char>) -> Option<Seq<char>>;

/// Relies on `kiss_xml::parse_str`, `Document::root_element`,
/// `Element::first_element_by_name` and `Node::text` (kiss_xml 1.1.0):
/// parsing and the lookup depend only on the document text and the tag, so
/// the extracted text is named by [`meta_child_text`]. The document must be
/// ASCII: when reporting a long comment or `<!...>` directive, kiss_xml's
/// `abbreviate` helper slices the text at fixed byte offsets, which aborts
/// if the offset splits a multi-byte character; in ASCII text every byte
/// offset is a character boundary, so those paths cannot abort and parse
/// failures come back as errors, converted to `None` here.
#[verifier::external_body]
fn child_text_of(xml: &str, tag: &str) -> (r: Option<String>)
    requires
        vstd::string::is_ascii(xml),
    ensures
        (r is Some) == (meta_child_text(xml@, tag@) is Some),
        r matches Some(s) ==> meta_child_text(xml@, tag@) == Some(s@),
{
    let doc = match kiss_xml::parse_str(xml) {
        Ok(d) => d,
        Err(_) => return None,
    };
    let elem = match doc.root_element().first_element_by_name(tag) {
        Ok(e) => e,
        Err(_) => return None,
    };
    Some(kiss_xml::dom::Node::text(elem))
}

/// A mount point where removable media appear: the `/media` directory
/// itself, or anything under it.
pub open spec fn is_media_mount(s: Seq<char>) -> bool {
    ||| (s.len() == 6 && s[0] == '/' && s[1] == 'm' && s[2] == 'e' && s[3] == 'd' && s[4] == 'i'
        && s[5] == 'a')
    ||| (s.len() >= 7 && s[0] == '/' && s[1] == 'm' && s[2] == 'e' && s[3] == 'd' && s[4] == 'i'
        && s[5] == 'a' && s[6] == '/')
}

/// The first media mount point in a mount list, if any.
pub open spec fn first_media_mount(mounts: Seq<Seq<char>>) -> Option<Seq<char>>
    decreases mounts.len(),
{
    if mounts.len() == 0 {
        None
    } else if is_media_mount(mounts[0]) {
        Some(mounts[0])
    } else {
        first_media_mount(mounts.skip(1))
    }
}

/// The name a Slippi Nintendont installation declares in its metadata.
pub open spec fn slippi_name() -> Seq<char> {
    "Slippi Nintendont"@
}

/// Whether one metadata document describes a Slippi Nintendont installation
/// and carries a version. A document with non-ASCII text does not qualify:
/// it is kept away from the XML parser, whose failure reporting cannot be
/// trusted not to abort on it (see [`child_text_of`]).
pub open spec fn is_slippi_meta(xml: Seq<char>) -> bool {
    &&& is_ascii_chars(xml)
    &&& meta_child_text(xml, "name"@) == Some(slippi_name())
    &&& meta_child_text(xml, "version"@) is Some
}

/// The version declared by the first Slippi Nintendont metadata document in
/// the list, if any.
pub open spec fn first_slippi_version(metas: Seq<Seq<char>>) -> Option<Seq<char>>
    decreases metas.len(),
{
    if metas.len() == 0 {
        None
    } else if is_slippi_meta(metas[0]) {
        Some(meta_child_text(metas[0], "version"@)->Some_0)
    } else {
        first_slippi_version(metas.skip(1))
    }
}

/// A handle on the mounted storage medium, remembered by its mount point.
#[derive(Debug)]
pub struct SDHandler {
    path: String,
}

impl SDHandler {
    /// The mount point this handle stands for.
    pub closed spec fn view(&self) -> Seq<char> {
        self.path@
    }

    /// Wraps a mount point.
    pub fn from_mount(path: String) -> (r: Self)
        ensures
            r@ == path@,
    {
        SDHandler { path }
    }

    /// The mount point, for the I/O layer to read files under.
    pub fn mount_path(&self) -> (r: &String)
        ensures
            r@ == self@,
    {
        &self.path
    }

    /// The directory under the mount point that holds one subdirectory per
    /// installed application.
    pub fn apps_dir_name() -> (r: String)
        ensures
            r@ == "apps"@,
    {
        "apps".to_owned()
    }

    /// The metadata file each application directory carries.
    pub fn meta_file_name() -> (r: String)
        ensures
            r@ == "meta.xml"@,
    {
        "meta.xml".to_owned()
    }

    /// Picks the storage medium out of a mount list: the first mount point
    /// under `/media/`, or `None` when no removable medium is mounted.
    pub fn find_sd(mounts: &Vec<String>) -> (r: Option<SDHandler>)
        ensures
            match r {
                Some(h) => first_media_mount(mounts.deep_view()) == Some(h@),
                None => first_media_mount(mounts.deep_view()) is None,
            },
    {
        let n = mounts.len();
        let mut i: usize = 0;
        proof {
            assert(mounts.deep_view().skip(0) =~= mounts.deep_view());
        }
        while i < n
            invariant
                n == mounts@.len(),
                i <= n,
                first_media_mount(mounts.deep_view()) == first_media_mount(
                    mounts.deep_view().skip(i as int),
                ),
                forall|j: int| 0 <= j < i ==> !is_media_mount(mounts.deep_view()[j]),
            decreases n - i,
        {
            let m = &mounts[i];
            proof {
                assert(mounts.deep_view().skip(i as int)[0] == mounts.deep_view()[i as int]);
            }
            if starts_with_media(m.as_str()) {
                return Some(SDHandler { path: m.clone() });
            }
            proof {
                assert(mounts.deep_view().skip(i as int).skip(1) =~= mounts.deep_view().skip(
                    i as int + 1,
                ));
            }
            i += 1;
        }
        proof {
            assert(mounts.deep_view().skip(n as int) =~= Seq::<Seq<char>>::empty());
        }
        None
    }

    /// Finds the installed Slippi Nintendont version among the metadata
    /// documents read from the medium's application directories: the version
    /// text of the first document that parses, names Slippi Nintendont, and
    /// declares a version. Documents that fail any of these are skipped,
    /// never an error.
    pub fn get_slippi_version(metas: &Vec<String>) -> (r: Option<String>)
        ensures
            match r {
                Some(v) => first_slippi_version(metas.deep_view()) == Some(v@),
                None => first_slippi_version(metas.deep_view()) is None,
            },
    {
        let n = metas.len();
        let mut i: usize = 0;
        proof {
            assert(metas.deep_view().skip(0) =~= metas.deep_view());
        }
        while i < n
            invariant
                n == metas@.len(),
                i <= n,
                first_slippi_version(metas.deep_view()) == first_slippi_version(
                    metas.deep_view().skip(i as int),
                ),
                forall|j: int| 0 <= j < i ==> !is_slippi_meta(metas.deep_view()[j]),
            decreases n - i,
        {
            let m = &metas[i];
            proof {
                assert(metas.deep_view().skip(i as int)[0] == metas.deep_view()[i as int]);
            }
            if m.as_str().is_ascii() {
                let name = child_text_of(m.as_str(), "name");
                if let Some(name) = name {
                    if name.eq(&slippi_target()) {
                        let version = child_text_of(m.as_str(), "version");
                        if let Some(v) = version {
                            return Some(v);
                        }
                    }
                }
            }
            proof {
                assert(!is_slippi_meta(metas.deep_view()[i as int]));
                assert(metas.deep_view().skip(i as int).skip(1) =~= metas.deep_view().skip(
                    i as int + 1,
                ));
            }
            i += 1;
        }
        proof {
            assert(metas.deep_view().skip(n as int) =~= Seq::<Seq<char>>::empty());
        }
        None
    }
}

/// The expected installation name, as an owned string for comparison.
fn slippi_target() -> (r: String)
    ensures
        r@ == slippi_name(),
{
    "Slippi Nintendont".to_owned()
}

/// Whether the string is `/media` or starts with `/media/`.
fn starts_with_media(s: &str) -> (r: bool)
    ensures
        r == is_media_mount(s@),
{
    let n = s.unicode_len();
    if n < 6 {
        return false;
    }
    let media = s.get_char(0) == '/' && s.get_char(1) == 'm' && s.get_char(2) == 'e' && s.get_char(
        3,
    ) == 'd' && s.get_char(4) == 'i' && s.get_char(5) == 'a';
    if n == 6 {
        media
    } else {
        media && s.get_char(6) == '/'
    }
}

} // verus!
