//! The encoder-decoder models of the catalog.

use super::{entries, hosted_entry, hosted_model, Engine, LanguageSupport, ModelEntry, ModelInfo};
use vstd::prelude::*;
use vstd::string::*;

verus! {

/// Where the model files are fetched from.
pub const HF_BASE: &'static str = "https://huggingface.co/ggerganov/whisper.cpp/resolve/main";

/// The entry of an encoder-decoder model: one file, ninety-nine languages.
pub open spec fn whisper_entry(
    id: Seq<char>,
    name: Seq<char>,
    size_bytes: u64,
    file: Seq<char>,
    description: Seq<char>,
) -> ModelEntry {
    hosted_entry(
        id,
        name,
        Engine::Whisper,
        size_bytes,
        "https://huggingface.co/ggerganov/whisper.cpp/resolve/main"@,
        seq![file],
        LanguageSupport::Multilingual(99),
        description,
    )
}

/// The five encoder-decoder models, from the smallest to the largest.
pub open spec fn whisper_catalog() -> Seq<ModelEntry> {
    seq![
        whisper_entry(
            "whisper-tiny"@,
            "Whisper Tiny"@,
            77_700_000,
            "ggml-tiny.bin"@,
            "Fastest, least accurate. Good for testing."@,
        ),
        whisper_entry(
            "whisper-base"@,
            "Whisper Base"@,
            148_000_000,
            "ggml-base.bin"@,
            "Fast with reasonable accuracy."@,
        ),
        whisper_entry(
            "whisper-small"@,
            "Whisper Small"@,
            488_000_000,
            "ggml-small.bin"@,
            "Good balance of speed and accuracy."@,
        ),
        whisper_entry(
            "whisper-medium"@,
            "Whisper Medium"@,
            1_530_000_000,
            "ggml-medium.bin"@,
            "High accuracy, moderate speed."@,
        ),
        whisper_entry(
            "whisper-large-v3-turbo"@,
            "Whisper Large V3 Turbo"@,
            1_620_000_000,
            "ggml-large-v3-turbo.bin"@,
            "Best quality with turbo speed improvements."@,
        ),
    ]
}

fn whisper_model(id: &str, name: &str, size_bytes: u64, file: &str, description: &str) -> (model:
    ModelInfo)
    ensures
        model@ == whisper_entry(id@, name@, size_bytes, file@, description@),
{
    let mut files: Vec<String> = Vec::new();
    files.push(String::from_str(file));
    assert(crate::text::views(files@) =~= seq![file@]);
    hosted_model(
        id,
        name,
        Engine::Whisper,
        size_bytes,
        HF_BASE,
        files,
        LanguageSupport::Multilingual(99),
        description,
    )
}

/// The encoder-decoder models.
pub fn catalog() -> (list: Vec<ModelInfo>)
    ensures
        entries(list@) == whisper_catalog(),
{
    let mut list: Vec<ModelInfo> = Vec::new();
    list.push(
        whisper_model(
            "whisper-tiny",
            "Whisper Tiny",
            77_700_000,
            "ggml-tiny.bin",
            "Fastest, least accurate. Good for testing.",
        ),
    );
    list.push(
        whisper_model(
            "whisper-base",
            "Whisper Base",
            148_000_000,
            "ggml-base.bin",
            "Fast with reasonable accuracy.",
        ),
    );
    list.push(
        whisper_model(
            "whisper-small",
            "Whisper Small",
            488_000_000,
            "ggml-small.bin",
            "Good balance of speed and accuracy.",
        ),
    );
    list.push(
        whisper_model(
            "whisper-medium",
            "Whisper Medium",
            1_530_000_000,
            "ggml-medium.bin",
            "High accuracy, moderate speed.",
        ),
    );
    list.push(
        whisper_model(
            "whisper-large-v3-turbo",
            "Whisper Large V3 Turbo",
            1_620_000_000,
            "ggml-large-v3-turbo.bin",
            "Best quality with turbo speed improvements.",
        ),
    );
    assert(entries(list@) =~= whisper_catalog());
    list
}

} // verus!
