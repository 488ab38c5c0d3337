//! The whole registry of a rules file: its models, layouts and options.

use vstd::prelude::*;

use crate::models::KeyboardModelList;
use crate::options::XkbOptionGroupList;
use crate::LayoutList;

verus! {

/// The three sections of a rules file, as read in one go.
#[derive(Debug, Clone)]
pub struct ConfigRegistry {
    pub models: KeyboardModelList,
    pub layouts: LayoutList,
    pub options: XkbOptionGroupList,
}

} // verus!
