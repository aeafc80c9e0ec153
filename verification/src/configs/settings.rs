use crate::text::{chars_of, same};
use vstd::prelude::*;

verus! {

/// The value of one setting, as far as the rendering reads it.
#[derive(Clone, Debug, PartialEq, Eq)]
pub enum Setting {
    /// No value.
    Null,
    /// A switch.
    Flag(bool),
    /// A text.
    Text(String),
    /// A list; an entry that is no text holds `None`.
    List(Vec<Option<String>>),
    /// Any other value.
    Other,
}

pub enum SettingView {
    Null,
    Flag(bool),
    Text(Seq<char>),
    List(Seq<Option<Seq<char>>>),
    Other,
}

/// The views of a list of optional texts.
pub open spec fn entry_views(entries: Seq<Option<String>>) -> Seq<Option<Seq<char>>> {
    Seq::new(
        entries.len(),
        |i: int|
            match entries[i] {
                Some(s) => Some(s@),
                None => None,
            },
    )
}

impl View for Setting {
    type V = SettingView;

    open spec fn view(&self) -> SettingView {
        match *self {
            Setting::Null => SettingView::Null,
            Setting::Flag(b) => SettingView::Flag(b),
            Setting::Text(s) => SettingView::Text(s@),
            Setting::List(entries) => SettingView::List(entry_views(entries@)),
            Setting::Other => SettingView::Other,
        }
    }
}

impl Setting {
    /// Whether the setting is the text `text`.
    pub fn is_text(&self, text: &str) -> (b: bool)
        ensures
            b == (self@ == SettingView::Text(text@)),
    {
        match self {
            Setting::Text(s) => same(&chars_of(s.as_str()), &chars_of(text)),
            _ => false,
        }
    }

    /// Whether the setting is the switch in position `flag`.
    pub fn is_flag(&self, flag: bool) -> (b: bool)
        ensures
            b == (self@ == SettingView::Flag(flag)),
    {
        match self {
            Setting::Flag(b) => *b == flag,
            _ => false,
        }
    }
}

} // verus!
