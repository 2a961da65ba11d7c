//! What the host IDE hands over about a selection.

use vstd::prelude::*;
use vstd::string::*;

verus! {

/// One schema object that the user selected in the object browser.
#[derive(Debug, PartialEq, Eq)]
pub struct SelectedObject {
    pub object_type: String,
    pub object_owner: String,
    pub object_name: String,
    pub sub_object: String,
}

/// A selected object as four texts.
pub struct SelectedObjectView {
    pub object_type: Seq<char>,
    pub object_owner: Seq<char>,
    pub object_name: Seq<char>,
    pub sub_object: Seq<char>,
}

impl View for SelectedObject {
    type V = SelectedObjectView;

    open spec fn view(&self) -> SelectedObjectView {
        SelectedObjectView {
            object_type: self.object_type@,
            object_owner: self.object_owner@,
            object_name: self.object_name@,
            sub_object: self.sub_object@,
        }
    }
}

impl SelectedObjectView {
    /// The line that describes the object in diagnostics.
    pub open spec fn description(self) -> Seq<char> {
        "(object_type: "@ + self.object_type + ", object_owner: "@ + self.object_owner
            + ", object_name: "@ + self.object_name + ", sub_object: "@ + self.sub_object + ")"@
    }
}

impl SelectedObject {
    /// The object with these four texts.
    pub fn new(object_type: &str, object_owner: &str, object_name: &str, sub_object: &str) -> (object:
        SelectedObject)
        ensures
            object@ == (SelectedObjectView {
                object_type: object_type@,
                object_owner: object_owner@,
                object_name: object_name@,
                sub_object: sub_object@,
            }),
    {
        SelectedObject {
            object_type: object_type.to_owned(),
            object_owner: object_owner.to_owned(),
            object_name: object_name.to_owned(),
            sub_object: sub_object.to_owned(),
        }
    }

    /// A copy of the object.
    pub fn duplicate(&self) -> (copy: SelectedObject)
        ensures
            copy@ == self@,
    {
        SelectedObject {
            object_type: self.object_type.clone(),
            object_owner: self.object_owner.clone(),
            object_name: self.object_name.clone(),
            sub_object: self.sub_object.clone(),
        }
    }

    /// The object on one line, for diagnostics.
    pub fn to_string(&self) -> (line: String)
        ensures
            line@ == self@.description(),
    {
        let mut line = "(object_type: ".to_owned();
        line.append(self.object_type.as_str());
        line.append(", object_owner: ");
        line.append(self.object_owner.as_str());
        line.append(", object_name: ");
        line.append(self.object_name.as_str());
        line.append(", sub_object: ");
        line.append(self.sub_object.as_str());
        line.append(")");
        line
    }
}

} // verus!
