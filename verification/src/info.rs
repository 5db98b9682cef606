//! What the window reports of itself.

use crate::json::{
    json_insert_flag, json_insert_integer, json_members, json_object, no_members, JsonMember,
};
use vstd::prelude::*;

verus! {

/// Size, position and stay-on-top attribute of a window, as read from the
/// window manager.
#[derive(Clone, Copy, Debug, PartialEq, Eq)]
pub struct WindowInfo {
    pub width: u32,
    pub height: u32,
    pub x: i32,
    pub y: i32,
    pub always_on_top: bool,
}

impl WindowInfo {
    /// The members of the JSON object that reports the window: `width`,
    /// `height`, `x`, `y` and `alwaysOnTop`.
    pub open spec fn members(self) -> Map<Seq<char>, JsonMember> {
        no_members().insert(
            "width"@,
            JsonMember::Integer(self.width as int),
        ).insert("height"@, JsonMember::Integer(self.height as int)).insert(
            "x"@,
            JsonMember::Integer(self.x as int),
        ).insert("y"@, JsonMember::Integer(self.y as int)).insert(
            "alwaysOnTop"@,
            JsonMember::Flag(self.always_on_top),
        )
    }

    /// The JSON object that reports the window.
    pub fn to_json(&self) -> (object: serde_json::Map<String, serde_json::Value>)
        ensures
            json_members(object) == self.members(),
    {
        let mut object = json_object();
        json_insert_integer(&mut object, "width", self.width as i64);
        json_insert_integer(&mut object, "height", self.height as i64);
        json_insert_integer(&mut object, "x", self.x as i64);
        json_insert_integer(&mut object, "y", self.y as i64);
        json_insert_flag(&mut object, "alwaysOnTop", self.always_on_top);
        object
    }
}

/// The report has exactly five members, one for each thing read, each under
/// its own key.
pub proof fn lemma_members(info: WindowInfo)
    ensures
        info.members().dom() =~= set!["width"@, "height"@, "x"@, "y"@, "alwaysOnTop"@],
        info.members()["width"@] == JsonMember::Integer(info.width as int),
        info.members()["height"@] == JsonMember::Integer(info.height as int),
        info.members()["x"@] == JsonMember::Integer(info.x as int),
        info.members()["y"@] == JsonMember::Integer(info.y as int),
        info.members()["alwaysOnTop"@] == JsonMember::Flag(info.always_on_top),
{
    reveal_strlit("width");
    reveal_strlit("height");
    reveal_strlit("x");
    reveal_strlit("y");
    reveal_strlit("alwaysOnTop");
    assert("width"@.len() == 5 && "height"@.len() == 6 && "alwaysOnTop"@.len() == 11);
    assert("x"@.len() == 1 && "y"@.len() == 1 && "x"@[0] != "y"@[0]);
}

} // verus!
