//! Extensions, and what is told of them.

use crate::text::{copied, texts, the_same_texts_are_the_same_list};
use vstd::prelude::*;

verus! {

/// What an extension runs in.
#[derive(Debug, Clone, Copy, PartialEq, Eq, Structural)]
pub enum ExtensionKind {
    Node,
    Wasm,
}

/// An extension that was found on disk.
#[derive(Debug, Clone)]
pub struct ExtensionManifest {
    pub id: String,
    pub display_name: String,
    pub version: String,
    pub kind: ExtensionKind,
    pub activation_events: Vec<String>,
    pub main: Option<String>,
    pub browser: Option<String>,
    pub wasm_binary: Option<String>,
    pub contributes_keys: Vec<String>,
    pub path: String,
}

/// What the workbench is told of an extension.
#[derive(Debug, Clone)]
pub struct ExtensionManifestSummary {
    pub id: String,
    pub name: String,
    pub version: String,
    pub kind: String,
    pub activation_events: Vec<String>,
    pub main: Option<String>,
    pub browser: Option<String>,
    pub wasm_binary: Option<String>,
    pub contributes: Vec<String>,
    pub location: String,
}

/// `ExtensionManifestSummary` with its texts as characters.
#[verifier::ext_equal]
pub struct SummaryView {
    pub id: Seq<char>,
    pub name: Seq<char>,
    pub version: Seq<char>,
    pub kind: Seq<char>,
    pub activation_events: Seq<Seq<char>>,
    pub main: Option<Seq<char>>,
    pub browser: Option<Seq<char>>,
    pub wasm_binary: Option<Seq<char>>,
    pub contributes: Seq<Seq<char>>,
    pub location: Seq<char>,
}

/// The characters of an optional string.
pub open spec fn optional_text(text: Option<String>) -> Option<Seq<char>> {
    match text {
        Some(text) => Some(text@),
        None => None,
    }
}

/// The word for a kind of extension.
pub open spec fn kind_word(kind: ExtensionKind) -> Seq<char> {
    match kind {
        ExtensionKind::Node => "node"@,
        ExtensionKind::Wasm => "wasm"@,
    }
}

impl View for ExtensionManifestSummary {
    type V = SummaryView;

    open spec fn view(&self) -> SummaryView {
        SummaryView {
            id: self.id@,
            name: self.name@,
            version: self.version@,
            kind: self.kind@,
            activation_events: texts(self.activation_events@),
            main: optional_text(self.main),
            browser: optional_text(self.browser),
            wasm_binary: optional_text(self.wasm_binary),
            contributes: texts(self.contributes@),
            location: self.location@,
        }
    }
}

impl ExtensionManifest {
    /// What is told of this extension.
    pub open spec fn summary(self) -> SummaryView {
        SummaryView {
            id: self.id@,
            name: self.display_name@,
            version: self.version@,
            kind: kind_word(self.kind),
            activation_events: texts(self.activation_events@),
            main: optional_text(self.main),
            browser: optional_text(self.browser),
            wasm_binary: optional_text(self.wasm_binary),
            contributes: texts(self.contributes_keys@),
            location: self.path@,
        }
    }
}

/// The two options hold the same text, or neither holds one.
pub open spec fn same_option(a: Option<String>, b: Option<String>) -> bool {
    &&& a is Some <==> b is Some
    &&& a is Some ==> a->0@ == b->0@
}

/// The two lists hold the same texts in the same order.
pub open spec fn same_list(a: Vec<String>, b: Vec<String>) -> bool {
    &&& a@.len() == b@.len()
    &&& forall|i: int| 0 <= i < a@.len() ==> (#[trigger] a@[i])@ == b@[i]@
}

/// Each field of the summary is that of the manifest.
pub open spec fn tells_of(summary: ExtensionManifestSummary, manifest: ExtensionManifest) -> bool {
    &&& summary.id@ == manifest.id@
    &&& summary.name@ == manifest.display_name@
    &&& summary.version@ == manifest.version@
    &&& manifest.kind is Node ==> summary.kind@ == "node"@
    &&& manifest.kind is Wasm ==> summary.kind@ == "wasm"@
    &&& same_list(summary.activation_events, manifest.activation_events)
    &&& same_option(summary.main, manifest.main)
    &&& same_option(summary.browser, manifest.browser)
    &&& same_option(summary.wasm_binary, manifest.wasm_binary)
    &&& same_list(summary.contributes, manifest.contributes_keys)
    &&& summary.location@ == manifest.path@
}

/// A summary that says what is told of an extension holds, field by field, what its manifest does:
/// nothing is lost, changed or mixed up.
pub proof fn a_summary_tells_of_its_manifest(
    summary: ExtensionManifestSummary,
    manifest: ExtensionManifest,
)
    requires
        summary@ == manifest.summary(),
    ensures
        tells_of(summary, manifest),
        summary.id@ == manifest.id@,
        summary.name@ == manifest.display_name@,
        summary.version@ == manifest.version@,
        summary.main is Some <==> manifest.main is Some,
        summary.main is Some ==> summary.main->0@ == manifest.main->0@,
        summary.browser is Some <==> manifest.browser is Some,
        summary.browser is Some ==> summary.browser->0@ == manifest.browser->0@,
        summary.wasm_binary is Some <==> manifest.wasm_binary is Some,
        summary.wasm_binary is Some ==> summary.wasm_binary->0@ == manifest.wasm_binary->0@,
        summary.activation_events@.len() == manifest.activation_events@.len(),
        forall|i: int|
            0 <= i < manifest.activation_events@.len() ==> (
            #[trigger] summary.activation_events@[i])@ == manifest.activation_events@[i]@,
        summary.contributes@.len() == manifest.contributes_keys@.len(),
        forall|i: int|
            0 <= i < manifest.contributes_keys@.len() ==> (#[trigger] summary.contributes@[i])@
                == manifest.contributes_keys@[i]@,
        manifest.kind is Node ==> summary.kind@ == "node"@,
        manifest.kind is Wasm ==> summary.kind@ == "wasm"@,
        summary.location@ == manifest.path@,
{
    the_same_texts_are_the_same_list(summary.activation_events@, manifest.activation_events@);
    the_same_texts_are_the_same_list(summary.contributes@, manifest.contributes_keys@);
}

/// What is told of the extensions, in their order.
pub fn build_manifest_summaries(manifests: &[ExtensionManifest]) -> (summaries: Vec<
    ExtensionManifestSummary,
>)
    ensures
        summaries@.map_values(|s: ExtensionManifestSummary| s@) == manifests@.map_values(
            |m: ExtensionManifest| m.summary(),
        ),
        summaries@.len() == manifests@.len(),
        forall|i: int|
            0 <= i < manifests@.len() ==> tells_of(#[trigger] summaries@[i], manifests@[i]),
{
    let mut summaries: Vec<ExtensionManifestSummary> = Vec::new();
    for i in 0..manifests.len()
        invariant
            summaries@.len() == i,
            forall|j: int|
                0 <= j < i ==> (#[trigger] summaries@[j])@ == manifests@[j].summary(),
            forall|j: int| 0 <= j < i ==> tells_of(#[trigger] summaries@[j], manifests@[j]),
    {
        let m = &manifests[i];
        summaries.push(
            ExtensionManifestSummary {
                id: m.id.clone(),
                name: m.display_name.clone(),
                version: m.version.clone(),
                kind: match m.kind {
                    ExtensionKind::Node => "node".to_owned(),
                    ExtensionKind::Wasm => "wasm".to_owned(),
                },
                activation_events: copied(&m.activation_events),
                main: m.main.clone(),
                browser: m.browser.clone(),
                wasm_binary: m.wasm_binary.clone(),
                contributes: copied(&m.contributes_keys),
                location: m.path.clone(),
            },
        );
        proof {
            a_summary_tells_of_its_manifest(summaries@[i as int], manifests@[i as int]);
        }
    }
    summaries
}

} // verus!
