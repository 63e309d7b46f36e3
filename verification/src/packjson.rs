//! The contents of a `pack.json` file, which describes how the files of a content
//! pack are grouped and which groups can be imported together.
use vstd::prelude::*;

use crate::inter_stage::TypeStage3;

verus! {

/// General metadata about a content pack.
pub struct PackMetadata {
    pub title: Option<String>,
    pub author: Option<String>,
    pub version: Option<String>,
    pub description: Option<String>,
}

/// How a content pack describes itself: its quoted title (or that it is untitled),
/// its version and author where known, then its description (or that it has none).
pub open spec fn spec_describe(m: PackMetadata) -> Seq<char> {
    (match m.title {
        Some(t) => "'"@ + t@ + "'"@,
        None => "Untitled content pack"@,
    }) + (match m.version {
        Some(v) => " (version "@ + v@ + ")"@,
        None => seq![],
    }) + (match m.author {
        Some(a) => " by "@ + a@,
        None => seq![],
    }) + (match m.description {
        Some(d) => ": "@ + d@,
        None => " (no description)"@,
    })
}

impl PackMetadata {
    /// Whether any of the metadata is present.
    pub fn has_data(&self) -> (r: bool)
        ensures
            r == (self.title is Some || self.author is Some || self.version is Some
                || self.description is Some),
            r == (spec_describe(*self) != untitled_description()),
    {
        proof {
            lemma_has_data_iff_described(*self);
        }
        self.title.is_some() || self.author.is_some() || self.version.is_some()
            || self.description.is_some()
    }

    /// Describes the content pack in one line.
    pub fn describe(&self) -> (r: String)
        ensures
            r@ == spec_describe(*self),
    {
        let mut out = String::new();
        match &self.title {
            Some(title) => {
                out.append("'");
                out.append(title.as_str());
                out.append("'");
            },
            None => {
                out.append("Untitled content pack");
            },
        }
        let ghost after_title = out@;
        match &self.version {
            Some(version) => {
                out.append(" (version ");
                out.append(version.as_str());
                out.append(")");
            },
            None => {},
        }
        let ghost after_version = out@;
        match &self.author {
            Some(author) => {
                out.append(" by ");
                out.append(author.as_str());
            },
            None => {},
        }
        let ghost after_author = out@;
        match &self.description {
            Some(desc) => {
                out.append(": ");
                out.append(desc.as_str());
            },
            None => {
                out.append(" (no description)");
            },
        }
        proof {
            reveal_strlit("'");
            reveal_strlit("Untitled content pack");
            reveal_strlit(" (version ");
            reveal_strlit(")");
            reveal_strlit(" by ");
            reveal_strlit(": ");
            reveal_strlit(" (no description)");
        }
        assert(out@ =~= spec_describe(*self));
        out
    }
}

impl Default for PackMetadata {
    /// Metadata with nothing known.
    fn default() -> (r: PackMetadata)
        ensures
            r.title is None,
            r.author is None,
            r.version is None,
            r.description is None,
    {
        PackMetadata { title: None, author: None, version: None, description: None }
    }
}

/// How a content pack without any metadata describes itself.
pub open spec fn untitled_description() -> Seq<char> {
    "Untitled content pack (no description)"@
}

/// A content pack has metadata exactly when it describes itself otherwise than a pack
/// without any metadata does.
pub proof fn lemma_has_data_iff_described(m: PackMetadata)
    ensures
        (m.title is Some || m.author is Some || m.version is Some || m.description is Some) <==> spec_describe(m)
            != untitled_description(),
{
    reveal_strlit("Untitled content pack (no description)");
    reveal_strlit("'");
    reveal_strlit("Untitled content pack");
    reveal_strlit(" (version ");
    reveal_strlit(")");
    reveal_strlit(" by ");
    reveal_strlit(": ");
    reveal_strlit(" (no description)");
    let d = spec_describe(m);
    let u = untitled_description();
    if m.title is Some {
        assert(d[0] != u[0]);
    } else if m.version is Some {
        assert(d[23] != u[23]);
    } else if m.author is Some {
        assert(d[22] != u[22]);
    } else if m.description is Some {
        assert(d[21] != u[21]);
    } else {
        assert(d =~= u);
    }
}

/// One pattern of an import group.
pub struct ImportGroupPattern {
    /// A glob naming files relative to the pack.json file.
    pub pattern: String,
    /// Overrides the import type of all files in the group.
    pub override_type: Option<TypeStage3>,
}

/// An import group: a named subset of the content of a pack.
pub struct ImportGroup {
    pub name: String,
    pub patterns: Vec<ImportGroupPattern>,
}

/// One option of an import set.
pub struct ImportSetOption {
    /// A short description that tells this option apart from the others of its set.
    pub description: String,
    /// The import groups this option enables.
    pub enables_groups: Vec<String>,
}

/// A list of import groups to pick between.
pub struct ImportSet {
    /// A short title naming the set.
    pub title: String,
    /// Whether an option must be picked.
    pub required: bool,
    /// The options of the set; at most one is picked.
    pub options: Vec<ImportSetOption>,
}

/// The contents of a pack.json file.
pub struct PackJson {
    /// The version of the pack.json standard the document follows.
    pub data_version: u32,
    pub metadata: PackMetadata,
    /// The import groups, each under its own name.
    pub import_groups: Vec<ImportGroup>,
    /// The import sets; where there are none, all groups are imported together.
    pub import_sets: Option<Vec<ImportSet>>,
}

} // verus!
