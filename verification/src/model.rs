//! The token stream that stands for one markup part of the package.
//!
//! Markup is handled as an ordered sequence of [`Token`]s.  Each token either
//! carries one structural event (an element opening or closing, a comment and
//! the like) or one run of character data.  Character-data tokens are
//! classified against the placeholder grammar.

use vstd::prelude::*;

verus! {

/// Classification of a text token's contents against the placeholder grammar.
#[derive(Debug, Clone, Copy, PartialEq, Eq, Structural)]
pub enum TokenType {
    /// Text holding at least one simple placeholder.
    Template,
    /// Text holding at least one helper placeholder, but no simple one.
    ComplexTemplate,
    /// Anything else.
    Normal,
}

/// The markup declaration version carried by the document's prologue.
#[derive(Debug, Clone, Copy, PartialEq, Eq, Structural)]
pub enum MarkupVersion {
    V10,
    V11,
}

/// A possibly prefixed, possibly namespace-qualified markup name.
#[derive(Debug)]
pub struct MarkupName {
    pub prefix: Option<String>,
    pub namespace: Option<String>,
    pub local: String,
}

/// One attribute of a structural markup event.
#[derive(Debug)]
pub struct MarkupAttribute {
    pub name: MarkupName,
    pub value: String,
}

/// One structural or textual markup unit, as a plain value.
#[derive(Debug)]
#[allow(inconsistent_fields)]
pub enum MarkupEvent {
    StartDocument { version: MarkupVersion, encoding: String, standalone: Option<bool> },
    EndDocument,
    ProcessingInstruction { name: String, data: Option<String> },
    StartElement {
        name: MarkupName,
        attributes: Vec<MarkupAttribute>,
        /// Prefix-to-namespace bindings in scope at this element, ordered by prefix.
        namespace_bindings: Vec<(String, String)>,
    },
    EndElement { name: MarkupName },
    CData(String),
    Comment(String),
    Characters(String),
    Whitespace(String),
}

/// One token of the stream: an event plus the classification of its text.
#[derive(Debug)]
pub struct Token {
    pub token_type: TokenType,
    pub token_text: Option<String>,
    pub event: MarkupEvent,
}

/// Mathematical picture of a [`MarkupName`].
#[verifier::ext_equal]
pub struct MarkupNameModel {
    pub prefix: Option<Seq<char>>,
    pub namespace: Option<Seq<char>>,
    pub local: Seq<char>,
}

/// Mathematical picture of a [`MarkupAttribute`].
#[verifier::ext_equal]
pub struct MarkupAttributeModel {
    pub name: MarkupNameModel,
    pub value: Seq<char>,
}

/// Mathematical picture of a [`MarkupEvent`].
#[verifier::ext_equal]
#[allow(inconsistent_fields)]
pub enum EventModel {
    StartDocument { version: MarkupVersion, encoding: Seq<char>, standalone: Option<bool> },
    EndDocument,
    ProcessingInstruction { name: Seq<char>, data: Option<Seq<char>> },
    StartElement {
        name: MarkupNameModel,
        attributes: Seq<MarkupAttributeModel>,
        namespace_bindings: Seq<(Seq<char>, Seq<char>)>,
    },
    EndElement { name: MarkupNameModel },
    CData(Seq<char>),
    Comment(Seq<char>),
    Characters(Seq<char>),
    Whitespace(Seq<char>),
}

/// Mathematical picture of a [`Token`].
#[verifier::ext_equal]
pub struct TokenModel {
    pub token_type: TokenType,
    pub token_text: Option<Seq<char>>,
    pub event: EventModel,
}

impl DeepView for MarkupName {
    type V = MarkupNameModel;

    open spec fn deep_view(&self) -> MarkupNameModel {
        MarkupNameModel {
            prefix: self.prefix.deep_view(),
            namespace: self.namespace.deep_view(),
            local: self.local@,
        }
    }
}

impl DeepView for MarkupAttribute {
    type V = MarkupAttributeModel;

    open spec fn deep_view(&self) -> MarkupAttributeModel {
        MarkupAttributeModel { name: self.name.deep_view(), value: self.value@ }
    }
}

impl DeepView for MarkupEvent {
    type V = EventModel;

    open spec fn deep_view(&self) -> EventModel {
        match self {
            MarkupEvent::StartDocument { version, encoding, standalone } => {
                EventModel::StartDocument {
                    version: *version,
                    encoding: encoding@,
                    standalone: standalone.deep_view(),
                }
            },
            MarkupEvent::EndDocument => EventModel::EndDocument,
            MarkupEvent::ProcessingInstruction { name, data } => {
                EventModel::ProcessingInstruction { name: name@, data: data.deep_view() }
            },
            MarkupEvent::StartElement { name, attributes, namespace_bindings } => {
                EventModel::StartElement {
                    name: name.deep_view(),
                    attributes: attributes.deep_view(),
                    namespace_bindings: namespace_bindings.deep_view(),
                }
            },
            MarkupEvent::EndElement { name } => {
                EventModel::EndElement { name: name.deep_view() }
            },
            MarkupEvent::CData(s) => EventModel::CData(s@),
            MarkupEvent::Comment(s) => EventModel::Comment(s@),
            MarkupEvent::Characters(s) => EventModel::Characters(s@),
            MarkupEvent::Whitespace(s) => EventModel::Whitespace(s@),
        }
    }
}

impl DeepView for Token {
    type V = TokenModel;

    open spec fn deep_view(&self) -> TokenModel {
        TokenModel {
            token_type: self.token_type,
            token_text: self.token_text.deep_view(),
            event: self.event.deep_view(),
        }
    }
}

impl Clone for MarkupName {
    fn clone(&self) -> (r: Self)
        ensures
            r.deep_view() == self.deep_view(),
    {
        MarkupName {
            prefix: clone_opt_string(&self.prefix),
            namespace: clone_opt_string(&self.namespace),
            local: self.local.clone(),
        }
    }
}

impl Clone for MarkupAttribute {
    fn clone(&self) -> (r: Self)
        ensures
            r.deep_view() == self.deep_view(),
    {
        MarkupAttribute { name: self.name.clone(), value: self.value.clone() }
    }
}

/// Clone an optional string, keeping its picture.
pub fn clone_opt_string(s: &Option<String>) -> (r: Option<String>)
    ensures
        r.deep_view() == s.deep_view(),
{
    match s {
        Some(x) => Some(x.clone()),
        None => None,
    }
}

/// Clone an attribute list, keeping its picture.
pub fn clone_attributes(attrs: &Vec<MarkupAttribute>) -> (r: Vec<MarkupAttribute>)
    ensures
        r.deep_view() == attrs.deep_view(),
{
    let mut r: Vec<MarkupAttribute> = Vec::new();
    let mut i: usize = 0;
    while i < attrs.len()
        invariant
            i <= attrs.len(),
            r.len() == i,
            forall|k: int| 0 <= k < i ==> r.deep_view()[k] == attrs.deep_view()[k],
        decreases attrs.len() - i,
    {
        r.push(attrs[i].clone());
        i = i + 1;
    }
    assert(r.deep_view() =~= attrs.deep_view());
    r
}

/// Clone a namespace-binding list, keeping its picture.
pub fn clone_bindings(b: &Vec<(String, String)>) -> (r: Vec<(String, String)>)
    ensures
        r.deep_view() == b.deep_view(),
{
    let mut r: Vec<(String, String)> = Vec::new();
    let mut i: usize = 0;
    while i < b.len()
        invariant
            i <= b.len(),
            r.len() == i,
            forall|k: int| 0 <= k < i ==> r.deep_view()[k] == b.deep_view()[k],
        decreases b.len() - i,
    {
        let pair = (b[i].0.clone(), b[i].1.clone());
        r.push(pair);
        i = i + 1;
    }
    assert(r.deep_view() =~= b.deep_view());
    r
}

impl Clone for MarkupEvent {
    fn clone(&self) -> (r: Self)
        ensures
            r.deep_view() == self.deep_view(),
    {
        match self {
            MarkupEvent::StartDocument { version, encoding, standalone } => {
                MarkupEvent::StartDocument {
                    version: *version,
                    encoding: encoding.clone(),
                    standalone: *standalone,
                }
            },
            MarkupEvent::EndDocument => MarkupEvent::EndDocument,
            MarkupEvent::ProcessingInstruction { name, data } => {
                MarkupEvent::ProcessingInstruction {
                    name: name.clone(),
                    data: clone_opt_string(data),
                }
            },
            MarkupEvent::StartElement { name, attributes, namespace_bindings } => {
                MarkupEvent::StartElement {
                    name: name.clone(),
                    attributes: clone_attributes(attributes),
                    namespace_bindings: clone_bindings(namespace_bindings),
                }
            },
            MarkupEvent::EndElement { name } => {
                MarkupEvent::EndElement { name: name.clone() }
            },
            MarkupEvent::CData(s) => MarkupEvent::CData(s.clone()),
            MarkupEvent::Comment(s) => MarkupEvent::Comment(s.clone()),
            MarkupEvent::Characters(s) => MarkupEvent::Characters(s.clone()),
            MarkupEvent::Whitespace(s) => MarkupEvent::Whitespace(s.clone()),
        }
    }
}

impl Clone for Token {
    fn clone(&self) -> (r: Self)
        ensures
            r.deep_view() == self.deep_view(),
    {
        Token {
            token_type: self.token_type,
            token_text: clone_opt_string(&self.token_text),
            event: self.event.clone(),
        }
    }
}

/// Clone a token list, keeping its picture.
pub fn clone_tokens(toks: &Vec<Token>) -> (r: Vec<Token>)
    ensures
        r.deep_view() == toks.deep_view(),
{
    let mut r: Vec<Token> = Vec::new();
    let mut i: usize = 0;
    while i < toks.len()
        invariant
            i <= toks.len(),
            r.len() == i,
            forall|k: int| 0 <= k < i ==> r.deep_view()[k] == toks.deep_view()[k],
        decreases toks.len() - i,
    {
        r.push(toks[i].clone());
        i = i + 1;
    }
    assert(r.deep_view() =~= toks.deep_view());
    r
}


/// Clone the token range `[lo, hi)`, keeping its picture.
pub fn clone_token_range(toks: &Vec<Token>, lo: usize, hi: usize) -> (r: Vec<Token>)
    requires
        lo <= hi <= toks@.len(),
    ensures
        r.deep_view() == toks.deep_view().subrange(lo as int, hi as int),
{
    let mut r: Vec<Token> = Vec::new();
    let mut i: usize = lo;
    while i < hi
        invariant
            lo <= i <= hi <= toks@.len(),
            r.len() == i - lo,
            forall|k: int| lo <= k < i ==> r.deep_view()[k - lo] == #[trigger] toks.deep_view()[k],
        decreases hi - i,
    {
        r.push(toks[i].clone());
        proof {
            assert(toks.deep_view()[i as int] == toks@[i as int].deep_view());
        }
        i = i + 1;
    }
    assert(r.deep_view() =~= toks.deep_view().subrange(lo as int, hi as int));
    r
}

} // verus!
