//! Keyboard models, as described in the XML files of xkeyboard-config.

use vstd::prelude::*;

use crate::{AccessList, ConfigItem};

verus! {

/// The keyboard models section of a rules file (`modelList`).
#[derive(Debug, Clone)]
pub struct KeyboardModels {
    pub model_list: KeyboardModelList,
}

/// A list of keyboard models.
#[derive(Debug, Clone)]
pub struct KeyboardModelList {
    pub model: Vec<KeyboardModel>,
}

/// A keyboard model.
#[derive(Debug, Clone)]
pub struct KeyboardModel {
    pub config_item: ConfigItem,
}

impl View for KeyboardModels {
    type V = Seq<KeyboardModel>;

    open spec fn view(&self) -> Seq<KeyboardModel> {
        self.model_list.model@
    }
}

impl AccessList for KeyboardModels {
    type InnerType = KeyboardModel;

    open spec fn list_view(&self) -> Seq<KeyboardModel> {
        self@
    }

    fn get_list(&self) -> (r: &[KeyboardModel]) {
        self.model_list.model.as_slice()
    }

    fn get_mut_list(&mut self) -> (r: &mut [KeyboardModel]) {
        self.model_list.model.as_mut_slice()
    }

    fn set_list(&mut self, list: Vec<KeyboardModel>) {
        self.model_list.model = list
    }

    fn new(list: Vec<KeyboardModel>) -> (r: Self) {
        KeyboardModels { model_list: KeyboardModelList { model: list } }
    }

    fn take_list(self) -> (r: Vec<KeyboardModel>) {
        self.model_list.model
    }
}

impl KeyboardModel {
    /// Fetches the name of the keyboard model.
    pub fn name(&self) -> (r: &str)
        ensures
            r@ == self.config_item.name@,
    {
        self.config_item.name.as_str()
    }

    /// Fetches a description of the keyboard model.
    pub fn description(&self) -> (r: &str)
        ensures
            r@ == self.config_item.description@,
    {
        self.config_item.description.as_str()
    }
}

/// The list of a models section is the whole vector of its model list,
/// element for element.
pub proof fn law_models_list_is_the_vector(models: KeyboardModels)
    ensures
        models.list_view() == models.model_list.model@,
        models.list_view().len() == models.model_list.model.len(),
{
}

} // verus!
