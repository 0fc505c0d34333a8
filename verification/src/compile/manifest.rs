use crate::error::Error;
use vstd::prelude::*;

verus! {

/// One texture to build: its name, its source file, the requested output format, and
/// whether to build its mips.
#[derive(Clone, Debug)]
pub struct TextureEntry {
    pub name: String,
    pub file: String,
    pub format: String,
    pub mips: bool,
}

impl Default for TextureEntry {
    /// An entry with empty texts, and mips not requested.
    fn default() -> (entry: Self)
        ensures
            entry.name@ == Seq::<char>::empty(),
            entry.file@ == Seq::<char>::empty(),
            entry.format@ == Seq::<char>::empty(),
            entry.mips == false,
    {
        TextureEntry {
            name: String::new(),
            file: String::new(),
            format: String::new(),
            mips: false,
        }
    }
}

/// The textures that a manifest lists.
#[derive(Debug)]
pub struct TextureManifest {
    pub entries: Vec<TextureEntry>,
}

/// Index of the first entry whose file is missing, where `present[i]` tells whether the file
/// of entry `i` exists; `None` when every file exists.
pub open spec fn first_missing(present: Seq<bool>) -> Option<int>
    decreases present.len(),
{
    if present.len() == 0 {
        None
    } else if !present[0] {
        Some(0)
    } else {
        match first_missing(present.drop_first()) {
            Some(i) => Some(i + 1),
            None => None,
        }
    }
}

impl TextureManifest {
    /// Checks that the file of every entry exists, given for each entry, in order, whether
    /// its file exists. The error names the file of the first entry whose file is missing.
    pub fn validate(&self, present: &[bool]) -> (result: Result<(), Error>)
        requires
            present@.len() == self.entries@.len(),
        ensures
            result is Ok <==> first_missing(present@) is None,
            result is Ok <==> (forall|i: int| 0 <= i < present@.len() ==> present@[i]),
            result matches Err(Error::MissingFile(file)) ==> (
                first_missing(present@) matches Some(i)
                && file@ == self.entries@[i].file@),
    {
        let mut i: usize = 0;
        while i < self.entries.len()
            invariant
                present@.len() == self.entries@.len(),
                i <= present@.len(),
                forall|j: int| 0 <= j < i ==> present@[j],
            decreases self.entries.len() - i,
        {
            if !present[i] {
                proof {
                    lemma_first_missing_at(present@, i as int);
                }
                return Err(Error::MissingFile(self.entries[i].file.clone()));
            }
            i = i + 1;
        }
        proof {
            lemma_first_missing_none(present@);
        }
        Ok(())
    }
}

pub(crate) proof fn lemma_first_missing_at(present: Seq<bool>, i: int)
    requires
        0 <= i < present.len(),
        !present[i],
        forall|j: int| 0 <= j < i ==> present[j],
    ensures
        first_missing(present) == Some(i),
    decreases i,
{
    if i > 0 {
        lemma_first_missing_at(present.drop_first(), i - 1);
    }
}

pub(crate) proof fn lemma_first_missing_none(present: Seq<bool>)
    ensures
        first_missing(present) is None <==> (forall|j: int| 0 <= j < present.len() ==> present[j]),
    decreases present.len(),
{
    if present.len() > 0 {
        lemma_first_missing_none(present.drop_first());
        if first_missing(present) is None {
            assert forall|j: int| 0 <= j < present.len() implies present[j] by {
                if j > 0 {
                    assert(present.drop_first()[j - 1] == present[j]);
                }
            }
        } else if forall|j: int| 0 <= j < present.len() ==> present[j] {
            assert forall|j: int| 0 <= j < present.drop_first().len() implies present.drop_first()[j] by {
                assert(present[j + 1] == present.drop_first()[j]);
            }
        }
    }
}

} // verus!
