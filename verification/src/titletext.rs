//! Formatted text for the tab bar: pieces of text and changes of colour,
//! with the number of columns that the whole takes.

use vstd::prelude::*;

verus! {

/// The sixteen colours of the terminal's palette.
#[derive(Clone, Copy, Debug, PartialEq, Eq, Hash, Structural)]
pub enum AnsiColor {
    Black,
    Maroon,
    Green,
    Olive,
    Navy,
    Purple,
    Teal,
    Silver,
    Grey,
    Red,
    Lime,
    Yellow,
    Blue,
    Fuchsia,
    Aqua,
    White,
}

/// A colour to write in.
#[derive(Clone, Copy, Debug, PartialEq, Eq, Hash, Structural)]
pub enum FormatColor {
    /// A colour of the palette.
    AnsiColor(AnsiColor),
    /// The colour that text has where none is set.
    Default,
}

/// One piece of formatted text.
#[derive(Clone, Debug, PartialEq, Eq)]
pub enum FormatItem {
    /// From here on, write in this colour.
    Foreground(FormatColor),
    /// Write this text.
    Text(String),
}

/// A piece of formatted text as a model value.
pub enum FormatItemModel {
    Foreground(FormatColor),
    Text(Seq<char>),
}

impl View for FormatItem {
    type V = FormatItemModel;

    open spec fn view(&self) -> FormatItemModel {
        match self {
            FormatItem::Foreground(color) => FormatItemModel::Foreground(*color),
            FormatItem::Text(text) => FormatItemModel::Text(text@),
        }
    }
}

impl FormatItem {
    /// A copy of this piece.
    pub fn duplicate(&self) -> (copy: FormatItem)
        ensures
            copy@ == self@,
    {
        match self {
            FormatItem::Foreground(color) => FormatItem::Foreground(*color),
            FormatItem::Text(text) => FormatItem::Text(text.clone()),
        }
    }
}

/// A title for the tab bar.
#[derive(Clone, Debug, PartialEq, Eq)]
pub struct TitleText {
    /// The pieces of the title, in the order in which they are written.
    pub items: Vec<FormatItem>,
    /// The number of columns that the title takes.
    pub len: usize,
}

/// A title as a model value.
pub struct TitleModel {
    pub items: Seq<FormatItemModel>,
    pub len: usize,
}

impl View for TitleText {
    type V = TitleModel;

    open spec fn view(&self) -> TitleModel {
        TitleModel { items: Seq::new(self.items@.len(), |i: int| self.items@[i]@), len: self.len }
    }
}

impl TitleText {
    /// A copy of this title.
    pub fn duplicate(&self) -> (copy: TitleText)
        ensures
            copy@ == self@,
    {
        let mut items: Vec<FormatItem> = Vec::new();
        let mut i: usize = 0;
        while i < self.items.len()
            invariant
                i <= self.items.len(),
                items@.len() == i,
                forall|j: int| 0 <= j < i ==> items@[j]@ == self.items@[j]@,
            decreases self.items.len() - i,
        {
            items.push(self.items[i].duplicate());
            i += 1;
        }
        let copy = TitleText { items, len: self.len };
        assert(copy@.items =~= self@.items);
        copy
    }
}

} // verus!
