//! The catalogue of speech-to-text models that can be fetched.

use crate::text::texts_view;
use vstd::prelude::*;

verus! {

/// Where a model comes from and under which name it is stored.
#[derive(Debug)]
pub struct ModelSource {
    pub model_id: String,
    pub repo: String,
    pub remote_file: String,
    pub local_file: String,
}

/// A catalogue entry as plain text.
pub struct SourceModel {
    pub model_id: Seq<char>,
    pub repo: Seq<char>,
    pub remote_file: Seq<char>,
    pub local_file: Seq<char>,
}

impl View for ModelSource {
    type V = SourceModel;

    open spec fn view(&self) -> SourceModel {
        SourceModel {
            model_id: self.model_id@,
            repo: self.repo@,
            remote_file: self.remote_file@,
            local_file: self.local_file@,
        }
    }
}

/// A catalogue entry made of four texts.
pub open spec fn entry(model_id: &str, repo: &str, remote_file: &str, local_file: &str) -> SourceModel {
    SourceModel {
        model_id: model_id@,
        repo: repo@,
        remote_file: remote_file@,
        local_file: local_file@,
    }
}

/// The known models, in catalogue order.
pub open spec fn catalogue() -> Seq<SourceModel> {
    seq![
        entry("tiny.en", "ggerganov/whisper.cpp", "ggml-tiny.en.bin", "ggml-tiny.en.bin"),
        entry("tiny", "ggerganov/whisper.cpp", "ggml-tiny.bin", "ggml-tiny.bin"),
        entry("base.en", "ggerganov/whisper.cpp", "ggml-base.en.bin", "ggml-base.en.bin"),
        entry("base", "ggerganov/whisper.cpp", "ggml-base.bin", "ggml-base.bin"),
        entry("small.en", "ggerganov/whisper.cpp", "ggml-small.en.bin", "ggml-small.bin"),
        entry("small", "ggerganov/whisper.cpp", "ggml-small.bin", "ggml-small.bin"),
        entry("medium.en", "ggerganov/whisper.cpp", "ggml-medium.en.bin", "ggml-medium.en.bin"),
        entry("medium", "ggerganov/whisper.cpp", "ggml-medium.bin", "ggml-medium.bin"),
        entry("large-v3", "ggerganov/whisper.cpp", "ggml-large-v3.bin", "ggml-large-v3.bin"),
        entry(
            "large-v3-turbo",
            "ggerganov/whisper.cpp",
            "ggml-large-v3-turbo.bin",
            "ggml-large-v3-turbo.bin",
        ),
        entry("nb-whisper-tiny", "NbAiLab/nb-whisper-tiny", "ggml-model.bin", "nb-whisper-tiny.bin"),
        entry("nb-whisper-base", "NbAiLab/nb-whisper-base", "ggml-model.bin", "nb-whisper-base.bin"),
        entry(
            "nb-whisper-small",
            "NbAiLab/nb-whisper-small",
            "ggml-model.bin",
            "nb-whisper-small.bin",
        ),
        entry(
            "nb-whisper-medium",
            "NbAiLab/nb-whisper-medium",
            "ggml-model.bin",
            "nb-whisper-medium.bin",
        ),
        entry(
            "nb-whisper-large",
            "NbAiLab/nb-whisper-large",
            "ggml-model.bin",
            "nb-whisper-large.bin",
        ),
    ]
}

/// The entries of a list as plain text.
pub open spec fn sources_view(sources: Seq<ModelSource>) -> Seq<SourceModel> {
    Seq::new(sources.len(), |i: int| sources[i]@)
}

fn source(model_id: &str, repo: &str, remote_file: &str, local_file: &str) -> (s: ModelSource)
    ensures
        s@ == entry(model_id, repo, remote_file, local_file),
{
    ModelSource {
        model_id: model_id.to_owned(),
        repo: repo.to_owned(),
        remote_file: remote_file.to_owned(),
        local_file: local_file.to_owned(),
    }
}

/// The known models.
pub fn model_sources() -> (sources: Vec<ModelSource>)
    ensures
        sources_view(sources@) == catalogue(),
{
    let mut v: Vec<ModelSource> = Vec::new();
    v.push(source("tiny.en", "ggerganov/whisper.cpp", "ggml-tiny.en.bin", "ggml-tiny.en.bin"));
    v.push(source("tiny", "ggerganov/whisper.cpp", "ggml-tiny.bin", "ggml-tiny.bin"));
    v.push(source("base.en", "ggerganov/whisper.cpp", "ggml-base.en.bin", "ggml-base.en.bin"));
    v.push(source("base", "ggerganov/whisper.cpp", "ggml-base.bin", "ggml-base.bin"));
    v.push(source("small.en", "ggerganov/whisper.cpp", "ggml-small.en.bin", "ggml-small.bin"));
    v.push(source("small", "ggerganov/whisper.cpp", "ggml-small.bin", "ggml-small.bin"));
    v.push(source("medium.en", "ggerganov/whisper.cpp", "ggml-medium.en.bin", "ggml-medium.en.bin"));
    v.push(source("medium", "ggerganov/whisper.cpp", "ggml-medium.bin", "ggml-medium.bin"));
    v.push(source("large-v3", "ggerganov/whisper.cpp", "ggml-large-v3.bin", "ggml-large-v3.bin"));
    v.push(
        source(
            "large-v3-turbo",
            "ggerganov/whisper.cpp",
            "ggml-large-v3-turbo.bin",
            "ggml-large-v3-turbo.bin",
        ),
    );
    v.push(
        source("nb-whisper-tiny", "NbAiLab/nb-whisper-tiny", "ggml-model.bin", "nb-whisper-tiny.bin"),
    );
    v.push(
        source("nb-whisper-base", "NbAiLab/nb-whisper-base", "ggml-model.bin", "nb-whisper-base.bin"),
    );
    v.push(
        source(
            "nb-whisper-small",
            "NbAiLab/nb-whisper-small",
            "ggml-model.bin",
            "nb-whisper-small.bin",
        ),
    );
    v.push(
        source(
            "nb-whisper-medium",
            "NbAiLab/nb-whisper-medium",
            "ggml-model.bin",
            "nb-whisper-medium.bin",
        ),
    );
    v.push(
        source(
            "nb-whisper-large",
            "NbAiLab/nb-whisper-large",
            "ggml-model.bin",
            "nb-whisper-large.bin",
        ),
    );
    proof {
        assert(sources_view(v@) =~= catalogue());
    }
    v
}

/// Index of the first catalogue entry for `model_id` at or after `from`;
/// the catalogue's length when there is none.
pub open spec fn source_index(sources: Seq<SourceModel>, model_id: Seq<char>, from: int) -> int
    decreases sources.len() - from,
{
    if from < 0 || from >= sources.len() {
        sources.len() as int
    } else if sources[from].model_id == model_id {
        from
    } else {
        source_index(sources, model_id, from + 1)
    }
}

/// The file name under which a model is stored, if the model is known.
pub open spec fn local_file_of(model_id: Seq<char>) -> Option<Seq<char>> {
    let k = source_index(catalogue(), model_id, 0);
    if k < catalogue().len() {
        Some(catalogue()[k].local_file)
    } else {
        None
    }
}

/// Resolves a model name such as `base.en` to the name of its file in the
/// models directory; `None` for an unknown model.
pub fn resolve_model_path(model_name: &String) -> (file: Option<String>)
    ensures
        crate::labels::opt_text(file) == local_file_of(model_name@),
{
    let sources = model_sources();
    let mut i: usize = 0;
    while i < sources.len()
        invariant
            i <= sources@.len(),
            sources_view(sources@) == catalogue(),
            source_index(catalogue(), model_name@, 0) == source_index(
                catalogue(),
                model_name@,
                i as int,
            ),
        decreases sources@.len() - i,
    {
        proof {
            assert(sources_view(sources@)[i as int] == sources@[i as int]@);
        }
        if sources[i].model_id.eq(model_name) {
            return Some(sources[i].local_file.clone());
        }
        i = i + 1;
    }
    None
}

/// Index of the first catalogue entry that is stored as `file` at or
/// after `from`; the catalogue's length when there is none.
pub open spec fn stored_index(sources: Seq<SourceModel>, file: Seq<char>, from: int) -> int
    decreases sources.len() - from,
{
    if from < 0 || from >= sources.len() {
        sources.len() as int
    } else if sources[from].local_file == file {
        from
    } else {
        stored_index(sources, file, from + 1)
    }
}

/// The models that a list of file names stands for: for each name that a
/// catalogue entry is stored under, the first such entry's model, in the
/// order of the names.
pub open spec fn installed_models(files: Seq<Seq<char>>) -> Seq<Seq<char>>
    decreases files.len(),
{
    if files.len() == 0 {
        Seq::empty()
    } else {
        let rest = installed_models(files.drop_last());
        let k = stored_index(catalogue(), files.last(), 0);
        if k < catalogue().len() {
            rest.push(catalogue()[k].model_id)
        } else {
            rest
        }
    }
}

fn find_stored(sources: &Vec<ModelSource>, file: &String) -> (k: usize)
    ensures
        k == stored_index(sources_view(sources@), file@, 0),
        k <= sources@.len(),
{
    let mut i: usize = 0;
    while i < sources.len()
        invariant
            i <= sources@.len(),
            stored_index(sources_view(sources@), file@, 0) == stored_index(
                sources_view(sources@),
                file@,
                i as int,
            ),
        decreases sources@.len() - i,
    {
        if sources[i].local_file.eq(file) {
            return i;
        }
        i = i + 1;
    }
    i
}

/// The names of the models that are installed, given the names of the
/// files in the models directory.
pub fn list_installed_model_names(file_names: &Vec<String>) -> (names: Vec<String>)
    ensures
        texts_view(names@) == installed_models(texts_view(file_names@)),
{
    let sources = model_sources();
    let mut names: Vec<String> = Vec::new();
    let ghost files = texts_view(file_names@);
    let mut i: usize = 0;
    proof {
        assert(files.take(0) =~= Seq::empty());
        assert(texts_view(names@) =~= Seq::empty());
    }
    while i < file_names.len()
        invariant
            i <= file_names@.len(),
            files == texts_view(file_names@),
            sources_view(sources@) == catalogue(),
            texts_view(names@) == installed_models(files.take(i as int)),
        decreases file_names@.len() - i,
    {
        let ghost before = texts_view(names@);
        proof {
            assert(files.take(i + 1).drop_last() =~= files.take(i as int));
            assert(files.take(i + 1).last() == file_names@[i as int]@);
        }
        let k: usize = find_stored(&sources, &file_names[i]);
        if k < sources.len() {
            proof {
                assert(sources_view(sources@)[k as int] == sources@[k as int]@);
            }
            names.push(sources[k].model_id.clone());
            proof {
                assert(texts_view(names@) =~= before.push(catalogue()[k as int].model_id));
            }
        }
        i = i + 1;
    }
    proof {
        assert(files.take(file_names@.len() as int) =~= files);
    }
    names
}

} // verus!
