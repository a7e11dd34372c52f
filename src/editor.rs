//! A self-contained editor component over a flat store: its text is saved
//! under a key derived from its name on every edit.

use vstd::prelude::*;
use crate::storage::{StoreOp, StoreOpM};

verus! {

/// The prefix of every key an editor saves under.
pub const KEY: &'static str = "yew.wasm-creole-live-editor.value";

/// An editor's properties.
#[derive(Debug, PartialEq)]
pub struct Props {
    /// Names the saved text; an empty name turns saving off.
    pub name: String,
    /// The text to start with.
    pub value: String,
    /// Whether the editor is shown; if not, only the preview is.
    pub editable: bool,
    /// Whether the editor takes the focus.
    pub autofocus: bool,
}

impl Default for Props {
    fn default() -> (r: Props)
        ensures
            r.name@ == Seq::<char>::empty(),
            r.value@ == Seq::<char>::empty(),
            r.editable,
            r.autofocus,
    {
        Props { name: String::new(), value: String::new(), editable: true, autofocus: true }
    }
}

/// A message to the editor.
#[derive(Debug, PartialEq)]
pub enum Msg {
    /// The text now reads this.
    Edit(String),
    Nope,
}

/// The key the text of the editor named `name` is saved under.
pub open spec fn save_key_of(name: Seq<char>) -> Seq<char> {
    KEY@ + "."@ + name
}

/// The key an editor saves under: none (empty) where it has no name.
pub open spec fn key_of(name: Seq<char>) -> Seq<char> {
    if name.len() == 0 {
        Seq::empty()
    } else {
        save_key_of(name)
    }
}

/// Whether an editor starts from its saved text rather than its value: it
/// is named, editable, and given no value.
pub open spec fn restores(p: Props) -> bool {
    p.name@.len() > 0 && p.value@.len() == 0 && p.editable
}

/// An editor: its properties and the key it saves under.
#[derive(Debug)]
pub struct CreoleLiveEditor {
    pub key: String,
    pub props: Props,
}

impl CreoleLiveEditor {
    /// The key the text of the editor named `name` is saved under.
    pub fn get_save_key(name: &str) -> (r: String)
        ensures
            r@ == save_key_of(name@),
    {
        KEY.to_owned().concat(".").concat(name)
    }

    fn key_for(name: &str) -> (r: String)
        ensures
            r@ == key_of(name@),
    {
        if name.is_empty() {
            String::new()
        } else {
            Self::get_save_key(name)
        }
    }

    /// The key to read the saved text from before creating the editor, if
    /// it starts from its saved text.
    pub fn restore_key(props: &Props) -> (r: Option<String>)
        ensures
            match r {
                Some(k) => restores(*props) && k@ == save_key_of(props.name@),
                None => !restores(*props),
            },
    {
        if !props.name.as_str().is_empty() && props.value.as_str().is_empty() && props.editable {
            Some(Self::get_save_key(props.name.as_str()))
        } else {
            None
        }
    }

    /// Creates the editor, given the text read under its restore key (if
    /// it has one and the text was there).
    pub fn create(props: Props, restored: Option<String>) -> (r: CreoleLiveEditor)
        ensures
            r.key@ == key_of(props.name@),
            r.props.name == props.name,
            r.props.editable == props.editable,
            r.props.autofocus == props.autofocus,
            r.props.value@ == (if restores(props) && restored is Some {
                restored->0@
            } else {
                props.value@
            }),
    {
        let key = Self::key_for(props.name.as_str());
        let wants = !props.name.as_str().is_empty() && props.value.as_str().is_empty() && props.editable;
        match restored {
            Some(text) if wants => {
                let Props { name, value: _, editable, autofocus } = props;
                CreoleLiveEditor { key, props: Props { name, value: text, editable, autofocus } }
            },
            _ => CreoleLiveEditor { key, props },
        }
    }

    /// Takes new properties; returns whether the editor must redraw.
    pub fn change(&mut self, props: Props) -> (r: bool)
        ensures
            final(self).props == props,
            final(self).key@ == (if props.name@ != old(self).props.name@ {
                key_of(props.name@)
            } else {
                old(self).key@
            }),
            r == (props.name@ != old(self).props.name@ || props.value@ != old(self).props.value@
                || props.editable != old(self).props.editable),
    {
        let renamed = props.name != self.props.name;
        let redraw = renamed || props.value != self.props.value || props.editable != self.props.editable;
        if renamed {
            self.key = Self::key_for(props.name.as_str());
        }
        self.props = props;
        redraw
    }

    /// Handles a message; returns whether to redraw and what to save.
    /// An edit of an editable, named editor saves the new text.
    pub fn update(&mut self, msg: Msg) -> (r: (bool, Option<StoreOp>))
        ensures
            final(self).key == old(self).key,
            final(self).props.name == old(self).props.name,
            final(self).props.editable == old(self).props.editable,
            final(self).props.autofocus == old(self).props.autofocus,
            match msg {
                Msg::Edit(val) => if old(self).props.editable {
                    &&& final(self).props.value == val
                    &&& r.0
                    &&& match r.1 {
                        Some(op) => old(self).key@.len() > 0 && op@ == StoreOpM::Put(
                            old(self).key@,
                            val@,
                        ),
                        None => old(self).key@.len() == 0,
                    }
                } else {
                    final(self).props.value == old(self).props.value && !r.0 && r.1 is None
                },
                Msg::Nope => final(self).props.value == old(self).props.value && r.0 && r.1 is None,
            },
    {
        match msg {
            Msg::Edit(val) => {
                if !self.props.editable {
                    return (false, None);
                }
                self.props.value = val;
                if self.key.as_str().is_empty() {
                    (true, None)
                } else {
                    (true, Some(StoreOp::Put { key: self.key.clone(), value: self.props.value.clone() }))
                }
            },
            Msg::Nope => (true, None),
        }
    }
}

} // verus!
