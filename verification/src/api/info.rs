//! Generic info record, shared by `CINFO`, `TINFO` and `SINFO`: an
//! attribute id, an attribute code and a value.

use vstd::prelude::*;

use crate::apdefs::{ItemAttributeCode, ItemAttributeId, parse_item_attribute_code, parse_item_attribute_id};
use crate::text::owned;

verus! {

/// An attribute of the disc, a title or a stream.
#[derive(Debug, PartialEq)]
pub struct InfoRecord {
    pub attr_num: u32,
    pub attr_val: Option<ItemAttributeId>,
    pub code_num: u32,
    pub code_val: Option<ItemAttributeCode>,
    pub value: String,
}

/// The mathematical content of an [`InfoRecord`].
pub struct InfoRecordView {
    pub attr_num: u32,
    pub attr_val: Option<ItemAttributeId>,
    pub code_num: u32,
    pub code_val: Option<ItemAttributeCode>,
    pub value: Seq<char>,
}

impl View for InfoRecord {
    type V = InfoRecordView;

    open spec fn view(&self) -> InfoRecordView {
        InfoRecordView {
            attr_num: self.attr_num,
            attr_val: self.attr_val,
            code_num: self.code_num,
            code_val: self.code_val,
            value: self.value@,
        }
    }
}

/// The record that `InfoRecord::new` builds from its parts.
pub open spec fn info_view(attr_num: u32, code_num: u32, value: Seq<char>) -> InfoRecordView {
    InfoRecordView {
        attr_num,
        attr_val: ItemAttributeId::of_value(attr_num),
        code_num,
        code_val: ItemAttributeCode::of_value(code_num),
        value,
    }
}

impl InfoRecord {
    /// Builds a record, looking up the id and code by their numbers.
    pub fn new(attr_num: u32, code_num: u32, value: &str) -> (r: Self)
        ensures
            r@ == info_view(attr_num, code_num, value@),
    {
        Self {
            attr_num,
            attr_val: parse_item_attribute_id(attr_num),
            code_num,
            code_val: parse_item_attribute_code(code_num),
            value: owned(value),
        }
    }
}

} // verus!
