//! The application state around the canvas: an editable text, a button that
//! reveals it in a label, and the record that persists the text across runs.
use vstd::prelude::*;

verus! {

/// The text a fresh application starts with.
pub const DEFAULT_TEXT: &'static str = "Hola mundo!";

/// The persisted record. Its one field may be missing from what was stored.
pub struct SavedState {
    pub texto_introducido: Option<String>,
}

/// The record as stored, if one could be read at all.
pub open spec fn saved_view(saved: Option<SavedState>) -> Option<Option<Seq<char>>> {
    match saved {
        Some(s) => Some(
            match s.texto_introducido {
                Some(t) => Some(t@),
                None => None,
            },
        ),
        None => None,
    }
}

/// What the application shows: the text, and whether the label reveals it.
pub struct AppView {
    pub text: Seq<char>,
    pub revealed: bool,
}

pub open spec fn default_view() -> AppView {
    AppView { text: DEFAULT_TEXT@, revealed: false }
}

/// The state rebuilt from a stored record: its text where there is one, the
/// default text where the record or its field is missing; the label starts
/// hidden, as it is never stored.
pub open spec fn restored(saved: Option<Option<Seq<char>>>) -> AppView {
    AppView {
        text: match saved {
            Some(Some(t)) => t,
            _ => DEFAULT_TEXT@,
        },
        revealed: false,
    }
}

/// What is stored of a state: its text, and nothing else.
pub open spec fn stored(app: AppView) -> Option<Seq<char>> {
    Some(app.text)
}

/// The state after the button is pressed: the label shows the text from now on.
pub open spec fn pressed(app: AppView) -> AppView {
    AppView { text: app.text, revealed: true }
}

/// The state after the user edits the text to `text`.
pub open spec fn edited(app: AppView, text: Seq<char>) -> AppView {
    AppView { text, revealed: app.revealed }
}

/// The label: empty until the button is pressed, then the current text.
pub open spec fn label(app: AppView) -> Seq<char> {
    if app.revealed {
        app.text
    } else {
        Seq::empty()
    }
}

/// The state of the application that is not drawing.
pub struct TemplateApp {
    texto_introducido: String,
    replicar: bool,
}

impl View for TemplateApp {
    type V = AppView;

    closed spec fn view(&self) -> AppView {
        AppView { text: self.texto_introducido@, revealed: self.replicar }
    }
}

impl Default for TemplateApp {
    fn default() -> (r: Self)
        ensures
            r@ == default_view(),
    {
        TemplateApp { texto_introducido: DEFAULT_TEXT.to_owned(), replicar: false }
    }
}

impl TemplateApp {
    /// The state at start-up, from the record stored by the last run, if any.
    pub fn new(saved: Option<SavedState>) -> (r: Self)
        ensures
            r@ == restored(saved_view(saved)),
    {
        let texto_introducido = match saved {
            Some(SavedState { texto_introducido: Some(t) }) => t,
            _ => DEFAULT_TEXT.to_owned(),
        };
        TemplateApp { texto_introducido, replicar: false }
    }

    /// The record to store when the application closes.
    pub fn save(&self) -> (r: SavedState)
        ensures
            saved_view(Some(r)) == Some(stored(self@)),
    {
        SavedState { texto_introducido: Some(self.texto_introducido.clone()) }
    }

    /// The text being edited.
    pub fn text(&self) -> (r: &str)
        ensures
            r@ == self@.text,
    {
        self.texto_introducido.as_str()
    }

    /// Replaces the text with what the user typed.
    pub fn set_text(&mut self, text: String)
        ensures
            final(self)@ == edited(old(self)@, text@),
    {
        self.texto_introducido = text;
    }

    /// Whether the button was ever pressed.
    pub fn revealed(&self) -> (r: bool)
        ensures
            r == self@.revealed,
    {
        self.replicar
    }

    /// The button was pressed.
    pub fn press_button(&mut self)
        ensures
            final(self)@ == pressed(old(self)@),
    {
        self.replicar = true;
    }

    /// The text of the label under the button.
    pub fn label_text(&self) -> (r: String)
        ensures
            r@ == label(self@),
    {
        if self.replicar {
            self.texto_introducido.clone()
        } else {
            String::new()
        }
    }
}

/// The stored text comes back unchanged on the next start, and a record that
/// is missing, or misses its text, gives the default text.
pub proof fn lemma_saved_text_round_trips(app: AppView)
    ensures
        restored(Some(stored(app))).text == app.text,
        restored(Some(None)) == default_view(),
        restored(None) == default_view(),
{
}

/// Pressing the button again changes nothing; once pressed, the label shows
/// the current text, also after later edits.
pub proof fn lemma_press_is_idempotent(app: AppView)
    ensures
        pressed(pressed(app)) == pressed(app),
        label(pressed(app)) == app.text,
        forall|text: Seq<char>| label(#[trigger] edited(pressed(app), text)) == text,
{
}

} // verus!
