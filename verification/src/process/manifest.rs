use crate::compile::manifest::{first_missing, lemma_first_missing_at, lemma_first_missing_none};
use crate::error::{str_equals, Error};
use crate::process::bcn::{block_texture_format, is_bcn, DdsBlockFormat};
use crate::schema::TextureFormat;
use vstd::prelude::*;

verus! {

/// One texture to process: its name, its source file, the requested output format, and
/// whether to build its mips, when the manifest says.
#[derive(Clone, Debug)]
pub struct TextureEntry {
    pub name: String,
    pub file: String,
    pub format: String,
    pub mips: Option<bool>,
}

impl Default for TextureEntry {
    /// An entry with empty texts, and mips left unspecified.
    fn default() -> (entry: Self)
        ensures
            entry.name@ == Seq::<char>::empty(),
            entry.file@ == Seq::<char>::empty(),
            entry.format@ == Seq::<char>::empty(),
            entry.mips == None::<bool>,
    {
        TextureEntry {
            name: String::new(),
            file: String::new(),
            format: String::new(),
            mips: None,
        }
    }
}

/// The textures that a manifest lists.
#[derive(Debug)]
pub struct TextureManifest {
    pub entries: Vec<TextureEntry>,
}

impl TextureManifest {
    /// Checks that the file of every entry exists, given for each entry, in order, whether
    /// its file exists. The error names the file of the first entry whose file is missing.
    pub fn validate(&self, present: &[bool]) -> (result: Result<(), Error>)
        requires
            present@.len() == self.entries@.len(),
        ensures
            result is Ok <==> first_missing(present@) is None,
            result is Ok <==> (forall|i: int| 0 <= i < present@.len() ==> present@[i]),
            result matches Err(Error::MissingFile(file)) ==> (
                first_missing(present@) matches Some(i)
                && file@ == self.entries@[i].file@),
    {
        let mut i: usize = 0;
        while i < self.entries.len()
            invariant
                present@.len() == self.entries@.len(),
                i <= present@.len(),
                forall|j: int| 0 <= j < i ==> present@[j],
            decreases self.entries.len() - i,
        {
            if !present[i] {
                proof {
                    lemma_first_missing_at(present@, i as int);
                }
                return Err(Error::MissingFile(self.entries[i].file.clone()));
            }
            i = i + 1;
        }
        proof {
            lemma_first_missing_none(present@);
        }
        Ok(())
    }
}

/// The output format that a manifest's format name stands for.
pub open spec fn output_format_named(name: Seq<char>) -> Option<TextureFormat> {
    if name == "bc1"@ {
        Some(TextureFormat::BC1_UNORM)
    } else if name == "bc3"@ {
        Some(TextureFormat::BC3_UNORM)
    } else if name == "bc6h"@ {
        Some(TextureFormat::BC6S_FLOAT)
    } else if name == "bc7"@ {
        Some(TextureFormat::BC7_UNORM)
    } else {
        None
    }
}

/// Whether `format` names an output format: `bc1`, `bc3`, `bc6h` or `bc7`.
pub fn is_output_format_name(format: &str) -> (named: bool)
    ensures
        named == output_format_named(format@) is Some,
{
    str_equals(format, "bc1") || str_equals(format, "bc3") || str_equals(format, "bc6h")
        || str_equals(format, "bc7")
}

/// The output format named `bc1`, `bc3`, `bc6h` or `bc7`; other names are not handled.
pub fn parse_output_format(format: &str) -> (output: TextureFormat)
    requires
        output_format_named(format@) is Some,
    ensures
        Some(output) == output_format_named(format@),
{
    if str_equals(format, "bc1") {
        TextureFormat::BC1_UNORM
    } else if str_equals(format, "bc3") {
        TextureFormat::BC3_UNORM
    } else if str_equals(format, "bc6h") {
        TextureFormat::BC6S_FLOAT
    } else if str_equals(format, "bc7") {
        TextureFormat::BC7_UNORM
    } else {
        assert(false);
        TextureFormat::UNKNOWN
    }
}

/// Law: each output format name stands for the format of the same BCn family: `bc1` for
/// BC1, `bc3` for BC3, `bc6h` for signed BC6H and `bc7` for BC7.
pub proof fn lemma_output_format_names()
    ensures
        output_format_named("bc1"@) == Some(TextureFormat::BC1_UNORM),
        output_format_named("bc3"@) == Some(TextureFormat::BC3_UNORM),
        output_format_named("bc6h"@) == Some(TextureFormat::BC6S_FLOAT),
        output_format_named("bc7"@) == Some(TextureFormat::BC7_UNORM),
{
    reveal_strlit("bc1");
    reveal_strlit("bc3");
    reveal_strlit("bc6h");
    reveal_strlit("bc7");
    assert("bc3"@[2] != "bc1"@[2]);
    assert("bc6h"@.len() != "bc1"@.len() && "bc6h"@.len() != "bc3"@.len());
    assert("bc7"@[2] != "bc1"@[2] && "bc7"@[2] != "bc3"@[2] && "bc7"@.len() != "bc6h"@.len());
}

/// Law: every output format that a manifest can name is block-compressed and is the format
/// of one of the block encoders.
pub proof fn lemma_named_output_formats_have_encoders(name: Seq<char>)
    requires
        output_format_named(name) is Some,
    ensures
        is_bcn(output_format_named(name)->0),
        exists|encoder: DdsBlockFormat| #[trigger] block_texture_format(encoder) == output_format_named(name)->0,
{
    if name == "bc1"@ {
        assert(block_texture_format(DdsBlockFormat::Bc1Unorm) == output_format_named(name)->0);
    } else if name == "bc3"@ {
        assert(block_texture_format(DdsBlockFormat::Bc3Unorm) == output_format_named(name)->0);
    } else if name == "bc6h"@ {
        assert(block_texture_format(DdsBlockFormat::Bc6hSf16) == output_format_named(name)->0);
    } else {
        assert(block_texture_format(DdsBlockFormat::Bc7Unorm) == output_format_named(name)->0);
    }
}

} // verus!
