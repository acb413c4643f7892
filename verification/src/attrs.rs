//! Attribute inspection: a labelled table of attribute name, type and
//! value, loaded from the node or network being inspected.

use vstd::prelude::*;

verus! {

/// The attribute table on display: a caption and one row per attribute,
/// each row holding the attribute's name, type name and printed value.
pub struct AttrView {
    label: String,
    values: Vec<(String, String, String)>,
}

impl Default for AttrView {
    /// An empty table with an empty caption.
    fn default() -> (r: Self)
        ensures
            r.label() == Seq::<char>::empty(),
            r.rows() == Seq::<(String, String, String)>::empty(),
    {
        AttrView { label: String::new(), values: Vec::new() }
    }
}

impl AttrView {
    /// The caption.
    pub closed spec fn label(&self) -> Seq<char> {
        self.label@
    }

    /// The rows of the table.
    pub closed spec fn rows(&self) -> Seq<(String, String, String)> {
        self.values@
    }

    /// Replaces the table with the given caption and rows.
    pub fn load_attrs(&mut self, label: String, values: Vec<(String, String, String)>)
        ensures
            final(self).label() == label@,
            final(self).rows() == values@,
    {
        self.label = label;
        self.values = values;
    }

    /// The caption text.
    pub fn caption(&self) -> (r: &String)
        ensures
            r@ == self.label(),
    {
        &self.label
    }

    /// The rows, in insertion order.
    pub fn entries(&self) -> (r: &Vec<(String, String, String)>)
        ensures
            r@ == self.rows(),
    {
        &self.values
    }
}

} // verus!
