use vstd::prelude::*;

verus! {

/// One file of a model: where it is downloaded from, and the path, relative to
/// the models directory, at which it is exposed.
#[derive(Clone, Debug, PartialEq, Eq)]
pub struct Artifact {
    pub url: String,
    pub dest: String,
}

impl View for Artifact {
    type V = (Seq<char>, Seq<char>);

    open spec fn view(&self) -> (Seq<char>, Seq<char>) {
        (self.url@, self.dest@)
    }
}

pub open spec fn view_artifacts(v: Seq<Artifact>) -> Seq<(Seq<char>, Seq<char>)> {
    v.map_values(|a: Artifact| a@)
}

/// The built-in catalog: for each known model name, its artifacts in the order
/// in which they are installed. A model with one artifact is exposed as a file
/// named after the model; a model with several gets a directory of that name.
pub open spec fn catalog(name: Seq<char>) -> Option<Seq<(Seq<char>, Seq<char>)>> {
    if name == "llama2-chat"@ {
        Some(seq![(
            "https://huggingface.co/TheBloke/Llama-2-13B-chat-GGML/resolve/a17885f653039bd07ed0f8ff4ecc373abf5425fd/llama-2-13b-chat.ggmlv3.q3_K_L.bin"@,
            "llama2-chat"@,
        )])
    } else if name == "codellama-instruct"@ {
        Some(seq![(
            "https://huggingface.co/TheBloke/CodeLlama-13B-Instruct-GGML/resolve/b3dc9d8df8b4143ee18407169f09bc12c0ae09ef/codellama-13b-instruct.ggmlv3.Q3_K_L.bin"@,
            "codellama-instruct"@,
        )])
    } else if name == "all-minikm-16-v2"@ {
        Some(seq![
            (
                "https://huggingface.co/sentence-transformers/all-MiniLM-L6-v2/resolve/7dbbc90392e2f80f3d3c277d6e90027e55de9125/tokenizer.json"@,
                "all-minikm-16-v2/tokenizer.json"@,
            ),
            (
                "https://huggingface.co/sentence-transformers/all-MiniLM-L6-v2/resolve/0b6dc4ef7c29dba0d2e99a5db0c855c3102310d8/model.safetensors"@,
                "all-minikm-16-v2/model.safetensors"@,
            ),
        ])
    } else {
        None
    }
}

/// The names that the catalog knows, in the order offered for selection.
pub open spec fn known_names() -> Seq<Seq<char>> {
    seq!["llama2-chat"@, "codellama-instruct"@, "all-minikm-16-v2"@]
}

/// A model whose artifacts live in a directory of their own.
pub open spec fn has_subdir(arts: Seq<(Seq<char>, Seq<char>)>) -> bool {
    arts.len() > 1
}

/// Every catalog entry lists at least one artifact.
pub proof fn lemma_catalog_nonempty(name: Seq<char>)
    ensures
        catalog(name) is Some ==> catalog(name)->0.len() >= 1,
{
}

fn same_text(a: &str, b: &str) -> (r: bool)
    ensures
        r == (a@ == b@),
{
    a.to_owned() == b.to_owned()
}

fn artifact(url: &str, dest: &str) -> (r: Artifact)
    ensures
        r@ == (url@, dest@),
{
    Artifact { url: url.to_owned(), dest: dest.to_owned() }
}

/// Looks a model up in the catalog.
pub fn model_artifacts(name: &str) -> (r: Option<Vec<Artifact>>)
    ensures
        r is Some == catalog(name@) is Some,
        r is Some ==> view_artifacts(r->0@) == catalog(name@)->0,
{
    let r = if same_text(name, "llama2-chat") {
        Some(vec![artifact(
            "https://huggingface.co/TheBloke/Llama-2-13B-chat-GGML/resolve/a17885f653039bd07ed0f8ff4ecc373abf5425fd/llama-2-13b-chat.ggmlv3.q3_K_L.bin",
            "llama2-chat",
        )])
    } else if same_text(name, "codellama-instruct") {
        Some(vec![artifact(
            "https://huggingface.co/TheBloke/CodeLlama-13B-Instruct-GGML/resolve/b3dc9d8df8b4143ee18407169f09bc12c0ae09ef/codellama-13b-instruct.ggmlv3.Q3_K_L.bin",
            "codellama-instruct",
        )])
    } else if same_text(name, "all-minikm-16-v2") {
        Some(vec![
            artifact(
                "https://huggingface.co/sentence-transformers/all-MiniLM-L6-v2/resolve/7dbbc90392e2f80f3d3c277d6e90027e55de9125/tokenizer.json",
                "all-minikm-16-v2/tokenizer.json",
            ),
            artifact(
                "https://huggingface.co/sentence-transformers/all-MiniLM-L6-v2/resolve/0b6dc4ef7c29dba0d2e99a5db0c855c3102310d8/model.safetensors",
                "all-minikm-16-v2/model.safetensors",
            ),
        ])
    } else {
        None
    };
    proof {
        if r is Some {
            assert(view_artifacts(r->0@) =~= catalog(name@)->0);
        }
    }
    r
}

/// The names that the catalog knows, in the order offered for selection.
pub fn known_models() -> (r: Vec<String>)
    ensures
        r@.map_values(|s: String| s@) == known_names(),
{
    let r = vec![
        "llama2-chat".to_owned(),
        "codellama-instruct".to_owned(),
        "all-minikm-16-v2".to_owned(),
    ];
    assert(r@.map_values(|s: String| s@) =~= known_names());
    r
}

} // verus!
