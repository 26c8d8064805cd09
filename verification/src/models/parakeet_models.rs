//! The transducer models of the catalog.

use super::{entries, hosted_entry, hosted_model, Engine, LanguageSupport, ModelEntry, ModelInfo};
use crate::text::views;
use vstd::prelude::*;
use vstd::string::*;

verus! {

/// Where the files of the second version are fetched from.
pub const HF_TDT_V2: &'static str =
    "https://huggingface.co/csukuangfj/sherpa-onnx-nemo-parakeet-tdt-0.6b-v2-int8/resolve/main";

/// Where the files of the third version are fetched from.
pub const HF_TDT_V3: &'static str =
    "https://huggingface.co/csukuangfj/sherpa-onnx-nemo-parakeet-tdt-0.6b-v3-int8/resolve/main";

/// The four files every transducer model consists of.
pub open spec fn transducer_files() -> Seq<Seq<char>> {
    seq![
        "encoder-epoch-86-avg-1.int8.onnx"@,
        "decoder-epoch-86-avg-1.int8.onnx"@,
        "joiner-epoch-86-avg-1.int8.onnx"@,
        "tokens.txt"@,
    ]
}

/// The entry of a transducer model.
pub open spec fn parakeet_entry(
    id: Seq<char>,
    name: Seq<char>,
    base: Seq<char>,
    languages: LanguageSupport,
    description: Seq<char>,
) -> ModelEntry {
    hosted_entry(
        id,
        name,
        Engine::Parakeet,
        680_000_000,
        base,
        transducer_files(),
        languages,
        description,
    )
}

/// The two transducer models: the English one, then the multilingual one.
pub open spec fn parakeet_catalog() -> Seq<ModelEntry> {
    seq![
        parakeet_entry(
            "parakeet-tdt-0.6b-v2"@,
            "Parakeet TDT 0.6B v2"@,
            "https://huggingface.co/csukuangfj/sherpa-onnx-nemo-parakeet-tdt-0.6b-v2-int8/resolve/main"@,
            LanguageSupport::English,
            "NVIDIA Parakeet TDT v2 (INT8) - English only, very fast and accurate."@,
        ),
        parakeet_entry(
            "parakeet-tdt-0.6b-v3"@,
            "Parakeet TDT 0.6B v3"@,
            "https://huggingface.co/csukuangfj/sherpa-onnx-nemo-parakeet-tdt-0.6b-v3-int8/resolve/main"@,
            LanguageSupport::Multilingual(25),
            "NVIDIA Parakeet TDT v3 (INT8) - 25 European languages, auto-detection."@,
        ),
    ]
}

/// Every transducer model lists the four files that its engine is set up
/// with: encoder, decoder, joiner and tokens, in this order.
pub proof fn lemma_parakeet_models_list_four_files()
    ensures
        forall|i: int|
            0 <= i < parakeet_catalog().len() ==> (#[trigger] parakeet_catalog()[i]).files
                == transducer_files(),
        transducer_files().len() == 4,
{
}

fn parakeet_model(
    id: &str,
    name: &str,
    base: &str,
    languages: LanguageSupport,
    description: &str,
) -> (model: ModelInfo)
    ensures
        model@ == parakeet_entry(id@, name@, base@, languages, description@),
{
    let mut files: Vec<String> = Vec::new();
    files.push(String::from_str("encoder-epoch-86-avg-1.int8.onnx"));
    files.push(String::from_str("decoder-epoch-86-avg-1.int8.onnx"));
    files.push(String::from_str("joiner-epoch-86-avg-1.int8.onnx"));
    files.push(String::from_str("tokens.txt"));
    assert(views(files@) =~= transducer_files());
    hosted_model(id, name, Engine::Parakeet, 680_000_000, base, files, languages, description)
}

/// The transducer models.
pub fn catalog() -> (list: Vec<ModelInfo>)
    ensures
        entries(list@) == parakeet_catalog(),
{
    let mut list: Vec<ModelInfo> = Vec::new();
    list.push(
        parakeet_model(
            "parakeet-tdt-0.6b-v2",
            "Parakeet TDT 0.6B v2",
            HF_TDT_V2,
            LanguageSupport::English,
            "NVIDIA Parakeet TDT v2 (INT8) - English only, very fast and accurate.",
        ),
    );
    list.push(
        parakeet_model(
            "parakeet-tdt-0.6b-v3",
            "Parakeet TDT 0.6B v3",
            HF_TDT_V3,
            LanguageSupport::Multilingual(25),
            "NVIDIA Parakeet TDT v3 (INT8) - 25 European languages, auto-detection.",
        ),
    );
    assert(entries(list@) =~= parakeet_catalog());
    list
}

} // verus!
