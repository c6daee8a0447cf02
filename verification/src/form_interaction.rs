//! Data for filling a form in bulk, and the timing of form interaction.
use vstd::prelude::*;
use crate::strmap::StrMap;

verus! {

/// Form field data for bulk filling.
#[derive(Debug)]
pub struct FormData {
    /// Text input fields: selector -> value
    pub text_fields: StrMap<String>,
    /// Dropdown selections: selector -> value
    pub select_fields: StrMap<String>,
    /// Checkboxes to check: selector -> checked
    pub checkboxes: StrMap<bool>,
    /// Radio buttons: group_name -> value
    pub radio_buttons: StrMap<String>,
}

impl FormData {
    /// Empty form data.
    pub fn new() -> (r: Self)
        ensures
            r.text_fields@ == Map::<Seq<char>, String>::empty(),
            r.select_fields@ == Map::<Seq<char>, String>::empty(),
            r.checkboxes@ == Map::<Seq<char>, bool>::empty(),
            r.radio_buttons@ == Map::<Seq<char>, String>::empty(),
    {
        FormData {
            text_fields: StrMap::new(),
            select_fields: StrMap::new(),
            checkboxes: StrMap::new(),
            radio_buttons: StrMap::new(),
        }
    }

    /// The same data with the text field `selector` set to `value`.
    pub fn text(self, selector: &str, value: &str) -> (r: Self)
        ensures
            r.text_fields@.dom() == self.text_fields@.dom().insert(selector@),
            forall|k: Seq<char>| #[trigger] r.text_fields@.contains_key(k) ==> r.text_fields@[k]@ == if k == selector@ {
                value@
            } else {
                self.text_fields@[k]@
            },
            r.select_fields@ == self.select_fields@,
            r.checkboxes@ == self.checkboxes@,
            r.radio_buttons@ == self.radio_buttons@,
    {
        let mut d = self;
        d.text_fields.insert(selector.to_owned(), value.to_owned());
        d
    }

    /// The same data with the dropdown `selector` set to `value`.
    pub fn select(self, selector: &str, value: &str) -> (r: Self)
        ensures
            r.select_fields@.dom() == self.select_fields@.dom().insert(selector@),
            forall|k: Seq<char>| #[trigger] r.select_fields@.contains_key(k) ==> r.select_fields@[k]@ == if k == selector@ {
                value@
            } else {
                self.select_fields@[k]@
            },
            r.text_fields@ == self.text_fields@,
            r.checkboxes@ == self.checkboxes@,
            r.radio_buttons@ == self.radio_buttons@,
    {
        let mut d = self;
        d.select_fields.insert(selector.to_owned(), value.to_owned());
        d
    }

    /// The same data with the checkbox `selector` set to `checked`.
    pub fn checkbox(self, selector: &str, checked: bool) -> (r: Self)
        ensures
            r.checkboxes@ == self.checkboxes@.insert(selector@, checked),
            r.text_fields@ == self.text_fields@,
            r.select_fields@ == self.select_fields@,
            r.radio_buttons@ == self.radio_buttons@,
    {
        let mut d = self;
        d.checkboxes.insert(selector.to_owned(), checked);
        d
    }

    /// The same data with the radio group `name` set to `value`.
    pub fn radio(self, name: &str, value: &str) -> (r: Self)
        ensures
            r.radio_buttons@.dom() == self.radio_buttons@.dom().insert(name@),
            forall|k: Seq<char>| #[trigger] r.radio_buttons@.contains_key(k) ==> r.radio_buttons@[k]@ == if k == name@ {
                value@
            } else {
                self.radio_buttons@[k]@
            },
            r.text_fields@ == self.text_fields@,
            r.select_fields@ == self.select_fields@,
            r.checkboxes@ == self.checkboxes@,
    {
        let mut d = self;
        d.radio_buttons.insert(name.to_owned(), value.to_owned());
        d
    }
}

impl Default for FormData {
    fn default() -> (r: Self)
        ensures
            r.text_fields@ == Map::<Seq<char>, String>::empty(),
            r.select_fields@ == Map::<Seq<char>, String>::empty(),
            r.checkboxes@ == Map::<Seq<char>, bool>::empty(),
            r.radio_buttons@ == Map::<Seq<char>, String>::empty(),
    {
        Self::new()
    }
}

/// Form interaction configuration.
#[derive(Debug, Clone)]
pub struct FormConfig {
    /// Timeout for waiting for elements (seconds)
    pub element_timeout: u64,
    /// Delay after typing (milliseconds)
    pub typing_delay: u64,
    /// Wait for navigation after submit
    pub wait_for_navigation: bool,
    /// Navigation timeout (seconds)
    pub navigation_timeout: u64,
}

impl Default for FormConfig {
    fn default() -> (r: Self)
        ensures
            r.element_timeout == 10,
            r.typing_delay == 100,
            r.wait_for_navigation,
            r.navigation_timeout == 30,
    {
        FormConfig { element_timeout: 10, typing_delay: 100, wait_for_navigation: true, navigation_timeout: 30 }
    }
}

} // verus!
