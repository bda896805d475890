use vstd::prelude::*;

use crate::paths::{file_name, final_component};

verus! {

/// One item to place on the volume: where its icon goes, whether it is
/// copied (`"file"`) or linked (`"link"`), its source path, and the name it
/// takes on the volume when that differs from the path's final component.
#[derive(Clone, Debug, PartialEq, Eq)]
pub struct DmgContent {
    pub x: u32,
    pub y: u32,
    pub type_: String,
    pub path: String,
    pub name: Option<String>,
}

/// Requested size of the installer window, in pixels.
#[derive(Clone, Debug, PartialEq, Eq)]
pub struct DmgWindowSize {
    pub width: u32,
    pub height: u32,
}

/// Window geometry of the volume's root folder.
#[derive(Clone, Debug, PartialEq, Eq)]
pub struct DmgWindow {
    pub size: DmgWindowSize,
}

/// The whole declaration of a package. The icon size is held as the
/// IEEE-754 binary64 encoding of the requested scale; the library only
/// carries it into the view-parameters entry.
#[derive(Clone, Debug, PartialEq, Eq)]
pub struct DmgConfig {
    pub title: String,
    pub icon: String,
    pub background: String,
    pub icon_size_bits: u64,
    pub window: DmgWindow,
    pub contents: Vec<DmgContent>,
}

/// How an item is materialised in the staging area.
#[derive(PartialEq, Eq, Structural, Clone, Copy, Debug)]
pub enum ItemKind {
    /// Copied recursively; a failure aborts the build.
    File,
    /// Linked symbolically; a failure is tolerated.
    Link,
    /// Any other tag: nothing is placed.
    Other,
}

pub open spec fn kind_of(tag: Seq<char>) -> ItemKind {
    if tag == "file"@ {
        ItemKind::File
    } else if tag == "link"@ {
        ItemKind::Link
    } else {
        ItemKind::Other
    }
}

/// Name used when neither an override nor a final path component exists.
pub open spec fn fallback_name() -> Seq<char> {
    "file"@
}

/// The name an item takes on the volume: its override if present, else the
/// final component of its source path, else the fallback name.
pub open spec fn display_name_of(c: DmgContent) -> Seq<char> {
    match c.name {
        Some(n) => n@,
        None => match final_component(c.path@) {
            Some(f) => f,
            None => fallback_name(),
        },
    }
}

/// Whether the two texts hold the same characters.
pub fn is_word(a: &str, b: &str) -> (r: bool)
    ensures
        r == (a@ == b@),
{
    let n = a.unicode_len();
    if n != b.unicode_len() {
        return false;
    }
    let mut i: usize = 0;
    while i < n
        invariant
            i <= n == a@.len() == b@.len(),
            a@.subrange(0, i as int) == b@.subrange(0, i as int),
        decreases n - i,
    {
        if a.get_char(i) != b.get_char(i) {
            return false;
        }
        assert(a@.subrange(0, i + 1) =~= a@.subrange(0, i as int).push(a@[i as int]));
        assert(b@.subrange(0, i + 1) =~= b@.subrange(0, i as int).push(b@[i as int]));
        i = i + 1;
    }
    assert(a@ =~= a@.subrange(0, n as int));
    assert(b@ =~= b@.subrange(0, n as int));
    true
}

impl DmgContent {
    /// How this item is materialised, read from its type tag.
    pub fn kind(&self) -> (r: ItemKind)
        ensures
            r == kind_of(self.type_@),
    {
        if is_word(self.type_.as_str(), "file") {
            ItemKind::File
        } else if is_word(self.type_.as_str(), "link") {
            ItemKind::Link
        } else {
            ItemKind::Other
        }
    }

    /// The name this item takes on the volume.
    pub fn display_name(&self) -> (r: String)
        ensures
            r@ == display_name_of(*self),
    {
        match &self.name {
            Some(n) => n.clone(),
            None => match file_name(self.path.as_str()) {
                Some(f) => f,
                None => "file".to_owned(),
            },
        }
    }
}

} // verus!
