//! The shape of document that the library renders as YAML, and the rendering.
use serde_yaml_ng::Mapping;
use vstd::prelude::*;

verus! {

/// Keys with their texts, in order.
pub type YamlRow = Vec<(String, String)>;

/// A document: texts at the top level, and behind them, under `key`, a table
/// that holds a list of rows under `list_key` and then texts.
pub struct YamlDocument {
    pub head: YamlRow,
    pub key: String,
    pub list_key: String,
    pub list: Vec<YamlRow>,
    pub texts: YamlRow,
}

/// A [`YamlDocument`] over sequences of characters.
#[verifier::ext_equal]
pub ghost struct YamlDocumentView {
    pub head: Seq<(Seq<char>, Seq<char>)>,
    pub key: Seq<char>,
    pub list_key: Seq<char>,
    pub list: Seq<Seq<(Seq<char>, Seq<char>)>>,
    pub texts: Seq<(Seq<char>, Seq<char>)>,
}

impl View for YamlDocument {
    type V = YamlDocumentView;

    open spec fn view(&self) -> YamlDocumentView {
        YamlDocumentView {
            head: self.head.deep_view(),
            key: self.key@,
            list_key: self.list_key@,
            list: self.list.deep_view(),
            texts: self.texts.deep_view(),
        }
    }
}

/// The YAML text of a document, or the message of the failure to render it.
pub uninterp spec fn yaml_text(document: YamlDocumentView) -> Result<Seq<char>, Seq<char>>;

/// `serde_yaml_ng::to_string` of the mapping of a document.
///
/// What it returns is a function of the document.
#[verifier::external_body]
pub(crate) fn render_yaml(document: YamlDocument) -> (rendered: Result<String, String>)
    ensures
        crate::text::text_result_view(rendered) == yaml_text(document@),
{
    let map = |row: YamlRow| -> Mapping {
        row.into_iter().map(|(k, v)| (k.into(), v.into())).collect()
    };
    let rows = document.list.into_iter().map(map).collect();
    let mut table = Mapping::new();
    table.insert(document.list_key.into(), rows);
    table.extend(map(document.texts));
    let mut root = map(document.head);
    root.insert(document.key.into(), table.into());
    serde_yaml_ng::to_string(&root).map_err(|e| e.to_string())
}

/// A document is seen as it is: each of its parts under the same name.
pub proof fn law_document_is_seen_as_it_is(document: YamlDocument)
    ensures
        document@.key == document.key@,
        document@.list_key == document.list_key@,
        document@.head.len() == document.head@.len(),
        document@.texts.len() == document.texts@.len(),
        document@.list.len() == document.list@.len(),
        forall|i: int|
            0 <= i < document.head@.len() ==> #[trigger] document@.head[i] == (
                document.head@[i].0@,
                document.head@[i].1@,
            ),
        forall|i: int|
            0 <= i < document.texts@.len() ==> #[trigger] document@.texts[i] == (
                document.texts@[i].0@,
                document.texts@[i].1@,
            ),
        forall|i: int|
            0 <= i < document.list@.len() ==> (#[trigger] document@.list[i]).len()
                == document.list@[i]@.len(),
        forall|i: int, j: int|
            0 <= i < document.list@.len() && 0 <= j < document.list@[i]@.len()
                ==> #[trigger] document@.list[i][j] == (
                document.list@[i]@[j].0@,
                document.list@[i]@[j].1@,
            ),
{
}

}
