//! The image-viewer component: its state, its messages, the state
//! transitions a message causes, and rendering as a pure function of the
//! state. Issuing the HTTP request and mounting the rendered tree into a
//! document are left to the embedding shell; this module decides what to
//! fetch and what to show.

use vstd::prelude::*;
use vstd::string::StringExecFns;
use crate::json::{json_parses, json_str_field, parse_json, str_field};

verus! {

/// The kind of animal an image is requested for.
pub enum Animal {
    Dog,
    Fox,
}

/// The fixed endpoint serving random dog images.
pub open spec fn dog_url_spec() -> Seq<char> {
    "https://dog.ceo/api/breeds/image/random"@
}

/// The fixed endpoint serving random fox images.
pub open spec fn fox_url_spec() -> Seq<char> {
    "https://randomfox.ca/floof/"@
}

/// The endpoint each animal kind maps to.
pub open spec fn spec_url_of(a: Animal) -> Seq<char> {
    match a {
        Animal::Dog => dog_url_spec(),
        Animal::Fox => fox_url_spec(),
    }
}

/// The animal kind a request name selects: exactly "Fox" selects the fox,
/// any other name falls back to the dog.
pub open spec fn spec_animal_of(name: Seq<char>) -> Animal {
    if name == "Fox"@ {
        Animal::Fox
    } else {
        Animal::Dog
    }
}

impl Animal {
    /// Resolves an animal kind to its fixed endpoint URL.
    pub fn url(&self) -> (r: &'static str)
        ensures
            r@ == spec_url_of(*self),
    {
        match self {
            Animal::Dog => "https://dog.ceo/api/breeds/image/random",
            Animal::Fox => "https://randomfox.ca/floof/",
        }
    }

    /// Resolves a request name to an animal kind; unrecognized names default
    /// to `Dog`.
    pub fn of_name(name: &String) -> (r: Animal)
        ensures
            r == spec_animal_of(name@),
    {
        let fox = String::from_str("Fox");
        if *name == fox {
            Animal::Fox
        } else {
            Animal::Dog
        }
    }
}

/// The messages driving the component: a user (or the shell, on creation)
/// asks for an animal by name, and a finished fetch reports its outcome.
#[derive(Debug)]
pub enum Msg {
    StartFetch(String),
    SuccessFetch(serde_json::Value),
    FailFetch,
}

/// The component's state: whether a fetch is outstanding, the last payload
/// received, and the last error text recorded. The handle to the in-flight
/// request lives with the shell that issues it.
#[derive(Debug)]
pub struct Model {
    pub is_loading: bool,
    pub data: Option<serde_json::Value>,
    pub error: Option<String>,
}

/// What rendering produces: one of the placeholders, or an image element
/// with its source URL. The shell turns this into actual markup.
#[derive(Debug, PartialEq)]
pub enum ViewTree {
    /// The loading placeholder.
    Fetching,
    /// An image element showing the given URL.
    Image(String),
    /// The placeholder for a payload with no usable image URL.
    Empty,
    /// The marker shown when no payload is held at all.
    NoData,
    /// The failure placeholder.
    Fail,
}

/// The mathematical shape of a rendered tree, with the image URL as a
/// character sequence.
pub enum ViewModel {
    Fetching,
    Image(Seq<char>),
    Empty,
    NoData,
    Fail,
}

/// The shape of a rendered tree.
pub open spec fn abs_view(t: ViewTree) -> ViewModel {
    match t {
        ViewTree::Fetching => ViewModel::Fetching,
        ViewTree::Image(url) => ViewModel::Image(url@),
        ViewTree::Empty => ViewModel::Empty,
        ViewTree::NoData => ViewModel::NoData,
        ViewTree::Fail => ViewModel::Fail,
    }
}

/// The image URL a payload yields: its "message" field when that is a
/// string, else its "image" field when that is a string, else nothing.
pub open spec fn spec_extract(v: serde_json::Value) -> Option<Seq<char>> {
    if json_str_field(v, "message"@) is Some {
        json_str_field(v, "message"@)
    } else {
        json_str_field(v, "image"@)
    }
}

impl Model {
    /// What the current state renders to: the loading placeholder while a
    /// fetch is outstanding, regardless of any stale payload or error; the
    /// payload's image (or the empty placeholder) when a payload is held and
    /// no error is set; the failure placeholder otherwise.
    pub open spec fn view_spec(&self) -> ViewModel {
        if self.is_loading {
            ViewModel::Fetching
        } else {
            match (self.data, self.error) {
                (Some(v), None) => match spec_extract(v) {
                    Some(url) => ViewModel::Image(url),
                    None => ViewModel::Empty,
                },
                _ => ViewModel::Fail,
            }
        }
    }

    /// A fresh component: the state starts out loading with nothing fetched,
    /// and the message that starts the initial dog fetch is handed back for
    /// the shell to dispatch.
    pub fn create() -> (r: (Model, Msg))
        ensures
            r.0.is_loading,
            r.0.data is None,
            r.0.error is None,
            r.1 matches Msg::StartFetch(name) && name@ == "Dog"@,
    {
        let model = Model { is_loading: true, data: None, error: None };
        (model, Msg::StartFetch(String::from_str("Dog")))
    }

    /// Applies a message. A start-fetch message marks the state loading and
    /// hands back the URL the shell must issue a GET request to, leaving the
    /// stale payload and error in place; a fetch outcome clears the loading
    /// flag and records the payload, or the fixed "error" text. The boolean
    /// tells the shell to re-render; it is always true.
    pub fn update(&mut self, msg: Msg) -> (r: (bool, Option<String>))
        ensures
            r.0,
            (msg matches Msg::StartFetch(name) ==> {
                &&& final(self).is_loading
                &&& final(self).data == old(self).data
                &&& final(self).error == old(self).error
                &&& r.1 matches Some(url) && url@ == spec_url_of(spec_animal_of(name@))
            }),
            (msg matches Msg::SuccessFetch(v) ==> {
                &&& !final(self).is_loading
                &&& final(self).data == Some(v)
                &&& final(self).error == old(self).error
                &&& r.1 is None
            }),
            (msg is FailFetch ==> {
                &&& !final(self).is_loading
                &&& final(self).data == old(self).data
                &&& final(self).error matches Some(e) && e@ == "error"@
                &&& r.1 is None
            }),
    {
        match msg {
            Msg::StartFetch(name) => {
                let animal = Animal::of_name(&name);
                let url = animal.url();
                self.is_loading = true;
                (true, Some(String::from_str(url)))
            }
            Msg::SuccessFetch(v) => {
                self.is_loading = false;
                self.data = Some(v);
                (true, None)
            }
            Msg::FailFetch => {
                self.error = Some(String::from_str("error"));
                self.is_loading = false;
                (true, None)
            }
        }
    }

    /// The success view: what the current payload shows, the "message" field
    /// checked before the "image" field, the empty placeholder when neither
    /// holds a string, and a bare marker when no payload is held at all.
    pub fn success(&self) -> (r: ViewTree)
        ensures
            (self.data matches Some(v) ==> abs_view(r) == (match spec_extract(v) {
                Some(url) => ViewModel::Image(url),
                None => ViewModel::Empty,
            })),
            self.data is None ==> r == ViewTree::NoData,
    {
        match &self.data {
            Some(v) => match str_field(v, "message") {
                Some(url) => ViewTree::Image(url),
                None => match str_field(v, "image") {
                    Some(url) => ViewTree::Image(url),
                    None => ViewTree::Empty,
                },
            },
            None => ViewTree::NoData,
        }
    }

    /// The loading placeholder.
    pub fn fetching(&self) -> (r: ViewTree)
        ensures
            r == ViewTree::Fetching,
    {
        ViewTree::Fetching
    }

    /// The failure placeholder.
    pub fn fail(&self) -> (r: ViewTree)
        ensures
            r == ViewTree::Fail,
    {
        ViewTree::Fail
    }

    /// Renders the current state; a pure function of the three state fields.
    pub fn view(&self) -> (r: ViewTree)
        ensures
            abs_view(r) == self.view_spec(),
    {
        if self.is_loading {
            self.fetching()
        } else if self.data.is_some() && self.error.is_none() {
            self.success()
        } else {
            self.fail()
        }
    }
}

/// Classifies a raw response body: text that parses as JSON becomes a
/// success message carrying the parsed value, anything else the failure
/// message.
pub fn decode_body(body: &str) -> (r: Msg)
    ensures
        (r is SuccessFetch) == json_parses(body@),
        !json_parses(body@) ==> r is FailFetch,
{
    match parse_json(body) {
        Ok(v) => Msg::SuccessFetch(v),
        Err(_) => Msg::FailFetch,
    }
}

/// Rendering is a pure function of the loading flag, the payload and the
/// error: states that agree on those three render the same shape.
pub proof fn lemma_render_pure(m1: Model, m2: Model)
    requires
        m1.is_loading == m2.is_loading,
        m1.data == m2.data,
        m1.error == m2.error,
    ensures
        m1.view_spec() == m2.view_spec(),
{
}

/// While a fetch is outstanding the rendering is the loading placeholder,
/// whatever stale payload or error the state still holds.
pub proof fn lemma_loading_renders_fetching(m: Model)
    requires
        m.is_loading,
    ensures
        m.view_spec() == ViewModel::Fetching,
{
}

/// A settled state holding a payload whose "message" field is a string
/// renders an image element with exactly that URL.
pub proof fn lemma_message_renders_image(m: Model, url: Seq<char>)
    requires
        !m.is_loading,
        m.error is None,
        m.data matches Some(v) && json_str_field(v, "message"@) == Some(url),
    ensures
        m.view_spec() == ViewModel::Image(url),
{
}

/// A settled state holding a payload with neither a string "message" field
/// nor a string "image" field renders the empty placeholder, whatever else
/// the payload holds.
pub proof fn lemma_no_field_renders_empty(m: Model)
    requires
        !m.is_loading,
        m.error is None,
        m.data matches Some(v) && json_str_field(v, "message"@) is None
            && json_str_field(v, "image"@) is None,
    ensures
        m.view_spec() == ViewModel::Empty,
{
}

/// A settled state with no payload and an error recorded renders the
/// failure placeholder, whatever the error text is.
pub proof fn lemma_error_renders_fail(m: Model)
    requires
        !m.is_loading,
        m.data is None,
        m.error is Some,
    ensures
        m.view_spec() == ViewModel::Fail,
{
}

} // verus!
