//! The `vyper --standard-json` input.

pub mod language;
pub mod settings;
pub mod source;

use vstd::prelude::*;

use crate::string_map::keys_increase;
use crate::string_map::lemma_entries_map;
use crate::string_map::lemma_lex_irreflexive;
use crate::string_map::StringMap;

use self::language::Language;
use self::settings::optimize::Optimize;
use self::settings::selection::Selection;
use self::settings::Settings;
use self::source::Source;

verus! {

/// The `vyper --standard-json` input.
#[derive(Debug)]
pub struct Input {
    /// The input language.
    pub language: Language,
    /// The input source code files, by path.
    pub sources: StringMap<Source>,
    /// The compiler settings.
    pub settings: Settings,
}

impl Input {
    /// The input made of source code files given by path.
    pub fn try_from_sources(
        sources: StringMap<String>,
        evm_version: Option<era_compiler_common::EVMVersion>,
        output_selection: StringMap<Vec<Selection>>,
        optimize: Optimize,
        enable_decimals: bool,
        fallback_to_optimizing_for_size: bool,
        llvm_options: Vec<String>,
    ) -> (r: Result<Self, String>)
        ensures
            r matches Ok(input) && {
                &&& input.language == Language::Vyper
                &&& input.sources.map().dom() == sources.map().dom()
                &&& forall|path: Seq<char>| #[trigger] input.sources.map().contains_key(path)
                    ==> input.sources.map()[path].content@ == sources.map()[path]@
                &&& input.settings == Settings {
                    evm_version,
                    output_selection,
                    optimize,
                    enable_decimals: if enable_decimals {
                        Some(true)
                    } else {
                        None
                    },
                    fallback_to_optimizing_for_size: Some(fallback_to_optimizing_for_size),
                    llvm_options: Some(llvm_options),
                }
            },
    {
        let entries = sources.into_entries();
        let mut files: StringMap<Source> = StringMap::new();
        let mut i: usize = 0;
        while i < entries.len()
            invariant
                i <= entries.len(),
                entries@ == sources.contents(),
                keys_increase(entries@),
                forall|j: int| 0 <= j < i ==> #[trigger] files.map().contains_key(entries@[j].0@)
                    && files.map()[entries@[j].0@].content@ == entries@[j].1@,
                forall|path: Seq<char>| #[trigger] files.map().contains_key(path) ==> exists|j: int|
                    0 <= j < i && #[trigger] entries@[j].0@ == path,
            decreases entries.len() - i,
        {
            let path = entries[i].0.clone();
            let content = entries[i].1.clone();
            proof {
                assert forall|j: int| 0 <= j < i implies entries@[j].0@ != entries@[i as int].0@ by {
                    lemma_lex_irreflexive(entries@[j].0@);
                }
            }
            files.insert(path, Source::from(content));
            i = i + 1;
        }
        proof {
            lemma_entries_map(entries@);
            assert(files.map().dom() =~= sources.map().dom());
        }
        Ok(
            Self {
                language: Language::Vyper,
                sources: files,
                settings: Settings::new(
                    evm_version,
                    output_selection,
                    optimize,
                    enable_decimals,
                    fallback_to_optimizing_for_size,
                    llvm_options,
                ),
            },
        )
    }
}

} // verus!
