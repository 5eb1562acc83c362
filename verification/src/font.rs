//! Finding the font file for a name: a name that already is a font file
//! is taken as given, any other is looked up as a TrueType file in the
//! user's font directory and then in the system's.

use vstd::prelude::*;
use vstd::string::*;
use crate::text::same_text;

verus! {

// What `Path::extension` gives for a path on a Unix system, where the
// extension is text: the part of the file name after its last dot.
pub uninterp spec fn extension_of(name: Seq<char>) -> Option<Seq<char>>;

/// Calls `std::path::Path::extension` on the name. Trusted: the result
/// is the extension that `extension_of` names, `None` where the path has
/// none or where it is not text.
#[verifier::external_body]
fn path_extension(name: &str) -> (extension: Option<String>)
    ensures
        match extension {
            Some(e) => extension_of(name@) == Some(e@),
            None => extension_of(name@).is_none(),
        },
{
    match std::path::Path::new(name).extension() {
        Some(e) => match e.to_str() {
            Some(t) => Some(t.to_string()),
            None => None,
        },
        None => None,
    }
}

/// A path that starts at the root.
pub open spec fn is_absolute(path: Seq<char>) -> bool {
    path.len() > 0 && path.first() == '/'
}

/// A directory and a file name joined into one path, as on a Unix
/// system: an absolute file name stands alone; any other follows the
/// directory, after a `/` unless the directory is empty or ends in one.
pub open spec fn joined(dir: Seq<char>, file: Seq<char>) -> Seq<char> {
    if is_absolute(file) {
        file
    } else if dir.len() == 0 || dir.last() == '/' {
        dir + file
    } else {
        dir + seq!['/'] + file
    }
}

/// Calls `std::path::Path::join` on a directory and a file name that
/// are both text. Trusted: on a Unix system the result is the text that
/// `joined` gives. An absolute file name replaces the directory; a
/// relative one is adjoined to it behind one separator.
#[verifier::external_body]
fn join_path(dir: &str, file: &str) -> (path: String)
    ensures
        path@ == joined(dir@, file@),
{
    std::path::Path::new(dir).join(file).to_string_lossy().into_owned()
}

/// The extensions of a font file.
pub open spec fn font_extension(extension: Seq<char>) -> bool {
    ||| extension == "ttf"@
    ||| extension == "otf"@
    ||| extension == "woff"@
    ||| extension == "woff2"@
}

/// Whether a path with this extension, if any, is a font file.
pub open spec fn font_file(extension: Option<Seq<char>>) -> bool {
    match extension {
        Some(e) => font_extension(e),
        None => false,
    }
}

/// Where a font was found.
#[derive(Clone, Copy, Debug, PartialEq, Eq, Structural)]
pub enum FontSource {
    /// The name is itself the path of a font file.
    AsGiven,
    /// The file lies in the user's font directory.
    UserFonts,
    /// The file lies in the system's font directory.
    SystemFonts,
}

/// What the file system said of the name taken as a path, of the two
/// font directories and of the file in each.
#[derive(Clone, Copy, Debug, PartialEq, Eq, Structural)]
pub struct FontProbe {
    pub given_file_exists: bool,
    pub user_dir_exists: bool,
    pub user_file_exists: bool,
    pub system_dir_exists: bool,
    pub system_file_exists: bool,
}

impl FontProbe {
    /// The file system holds the font's file in this source.
    pub open spec fn holds(&self, source: FontSource) -> bool {
        match source {
            FontSource::AsGiven => self.given_file_exists,
            FontSource::UserFonts => self.user_dir_exists && self.user_file_exists,
            FontSource::SystemFonts => self.system_dir_exists && self.system_file_exists,
        }
    }
}

/// Where the font is taken from. A name that is a font file is taken as
/// given if that file exists, and is found nowhere if it does not. Any
/// other name is looked for in the user's directory, if it and the file
/// in it exist, then in the system's likewise.
pub open spec fn source_for(is_font_file: bool, probe: FontProbe) -> Option<FontSource> {
    if is_font_file {
        if probe.given_file_exists {
            Some(FontSource::AsGiven)
        } else {
            None
        }
    } else if probe.user_dir_exists && probe.user_file_exists {
        Some(FontSource::UserFonts)
    } else if probe.system_dir_exists && probe.system_file_exists {
        Some(FontSource::SystemFonts)
    } else {
        None
    }
}

pub fn is_font_extension(extension: &str) -> (known: bool)
    ensures
        known == font_extension(extension@),
{
    same_text(extension, "ttf") || same_text(extension, "otf") || same_text(extension, "woff")
        || same_text(extension, "woff2")
}

/// Whether an extension, as taken from a path, marks a font file.
pub fn is_font_file(extension: Option<&str>) -> (known: bool)
    ensures
        known == font_file(
            match extension {
                Some(e) => Some(e@),
                None => None,
            },
        ),
{
    match extension {
        Some(e) => is_font_extension(e),
        None => false,
    }
}

/// Whether the name is the path of a font file, by its extension.
pub fn names_font_file(name: &str) -> (known: bool)
    ensures
        known == font_file(extension_of(name@)),
{
    match path_extension(name) {
        Some(e) => is_font_file(Some(e.as_str())),
        None => is_font_file(None),
    }
}

/// The file that a font name stands for in a font directory.
pub fn font_file_name(name: &str) -> (file: String)
    ensures
        file@ == name@ + ".ttf"@,
{
    String::from_str(name).concat(".ttf")
}

/// Decides where the font is taken from.
pub fn choose_source(is_font_file: bool, probe: FontProbe) -> (source: Option<FontSource>)
    ensures
        source == source_for(is_font_file, probe),
        source.is_some() ==> probe.holds(source.unwrap()),
{
    if is_font_file {
        if probe.given_file_exists {
            Some(FontSource::AsGiven)
        } else {
            None
        }
    } else if probe.user_dir_exists && probe.user_file_exists {
        Some(FontSource::UserFonts)
    } else if probe.system_dir_exists && probe.system_file_exists {
        Some(FontSource::SystemFonts)
    } else {
        None
    }
}

impl FontSource {
    pub open spec fn directory_of(&self) -> Option<Seq<char>> {
        match self {
            FontSource::AsGiven => None,
            FontSource::UserFonts => Some("~/.local/share/fonts"@),
            FontSource::SystemFonts => Some("/usr/share/fonts"@),
        }
    }

    /// The path at which the font of this name lies, or would lie, in
    /// the source: the name itself, or its TrueType file in the
    /// directory.
    pub open spec fn path_of(&self, name: Seq<char>) -> Seq<char> {
        match self.directory_of() {
            Some(dir) => joined(dir, name + ".ttf"@),
            None => name,
        }
    }

    pub fn path(&self, name: &str) -> (p: String)
        ensures
            p@ == self.path_of(name@),
    {
        match self.directory() {
            Some(dir) => {
                let file = font_file_name(name);
                join_path(dir, file.as_str())
            },
            None => String::from_str(name),
        }
    }

    /// The directory that the source stands for, if it is one.
    pub fn directory(&self) -> (dir: Option<&'static str>)
        ensures
            match dir {
                Some(d) => self.directory_of() == Some(d@),
                None => self.directory_of().is_none(),
            },
    {
        match self {
            FontSource::AsGiven => None,
            FontSource::UserFonts => Some("~/.local/share/fonts"),
            FontSource::SystemFonts => Some("/usr/share/fonts"),
        }
    }
}

/// The path of the font for a name, given what the file system said:
/// the path in the source that is chosen, if one is.
pub open spec fn found_font(name: Seq<char>, probe: FontProbe) -> Option<Seq<char>> {
    match source_for(font_file(extension_of(name)), probe) {
        Some(source) => Some(source.path_of(name)),
        None => None,
    }
}

/// A file lies at the path `path` if the probe, made for `name`, is
/// right: the path is that of a source in which the probe saw the file.
pub open spec fn seen_at(name: Seq<char>, probe: FontProbe, path: Seq<char>) -> bool {
    exists|source: FontSource| probe.holds(source) && #[trigger] source.path_of(name) == path
}

/// Finds the font file for a name. `probe` says whether a file exists
/// at the path of each source (`FontSource::path`) and whether the two
/// directories exist. A path is returned only where the probe saw its
/// file.
pub fn search_for_font(name: &str, probe: FontProbe) -> (found: Option<String>)
    ensures
        match found {
            Some(p) => found_font(name@, probe) == Some(p@) && seen_at(name@, probe, p@),
            None => found_font(name@, probe).is_none(),
        },
{
    match choose_source(names_font_file(name), probe) {
        Some(source) => Some(source.path(name)),
        None => None,
    }
}

/// Every path that the search gives is one at which the probe saw a
/// file, and a name whose file is absent everywhere gives none.
pub proof fn found_font_was_seen(name: Seq<char>, probe: FontProbe)
    ensures
        found_font(name, probe).is_some() ==> seen_at(name, probe, found_font(name, probe).unwrap()),
        !probe.given_file_exists && !probe.user_file_exists && !probe.system_file_exists
            ==> found_font(name, probe).is_none(),
{
    match source_for(font_file(extension_of(name)), probe) {
        Some(source) => {
            assert(probe.holds(source) && source.path_of(name) == found_font(name, probe).unwrap());
        },
        None => {},
    }
}

} // verus!
