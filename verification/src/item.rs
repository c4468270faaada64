//! Startup items: the programs and commands that are launched at logon.

use vstd::prelude::*;
use crate::text::owned;

verus! {

/// One entry of the user's list: a program or a command to launch.
#[derive(Clone, Debug, PartialEq, Eq)]
pub struct StartupItem {
    /// Identifies the item; given when it is created and never changed.
    pub id: String,
    pub name: String,
    /// `"normal"` starts a program, `"command"` runs a command line.
    pub mode: String,
    pub executable_path: String,
    pub display_name: String,
    pub icon: String,
    pub arguments: String,
    pub command: String,
    pub run_as_admin: bool,
    pub enabled: bool,
    pub delay_enabled: bool,
    pub delay_seconds: u32,
}

/// A `StartupItem` with its texts as sequences of characters.
pub struct StartupItemView {
    pub id: Seq<char>,
    pub name: Seq<char>,
    pub mode: Seq<char>,
    pub executable_path: Seq<char>,
    pub display_name: Seq<char>,
    pub icon: Seq<char>,
    pub arguments: Seq<char>,
    pub command: Seq<char>,
    pub run_as_admin: bool,
    pub enabled: bool,
    pub delay_enabled: bool,
    pub delay_seconds: u32,
}

impl View for StartupItem {
    type V = StartupItemView;

    open spec fn view(&self) -> StartupItemView {
        StartupItemView {
            id: self.id@,
            name: self.name@,
            mode: self.mode@,
            executable_path: self.executable_path@,
            display_name: self.display_name@,
            icon: self.icon@,
            arguments: self.arguments@,
            command: self.command@,
            run_as_admin: self.run_as_admin,
            enabled: self.enabled,
            delay_enabled: self.delay_enabled,
            delay_seconds: self.delay_seconds,
        }
    }
}

/// The items of a list, each by its view.
pub open spec fn item_views(items: Seq<StartupItem>) -> Seq<StartupItemView> {
    items.map_values(|item: StartupItem| item@)
}

/// The digits of a lower-case hexadecimal number.
pub open spec fn is_lower_hex(c: char) -> bool {
    ('0' <= c && c <= '9') || ('a' <= c && c <= 'f')
}

/// The shape of an item's identifier: 32 lower-case hexadecimal digits in
/// groups of 8, 4, 4, 4 and 12, with a hyphen between two groups. The third
/// group starts with `4`, the fourth with `8`, `9`, `a` or `b`.
pub open spec fn is_identifier(id: Seq<char>) -> bool {
    &&& id.len() == 36
    &&& forall|i: int|
        0 <= i < 36 ==> if i == 8 || i == 13 || i == 18 || i == 23 {
            id[i] == '-'
        } else {
            is_lower_hex(#[trigger] id[i])
        }
    &&& id[14] == '4'
    &&& (id[19] == '8' || id[19] == '9' || id[19] == 'a' || id[19] == 'b')
}

/// The item that the factory makes, but for its identifier.
pub open spec fn blank_item(id: Seq<char>) -> StartupItemView {
    StartupItemView {
        id,
        name: Seq::empty(),
        mode: "normal"@,
        executable_path: Seq::empty(),
        display_name: Seq::empty(),
        icon: Seq::empty(),
        arguments: Seq::empty(),
        command: Seq::empty(),
        run_as_admin: false,
        enabled: true,
        delay_enabled: false,
        delay_seconds: 5,
    }
}

/// Some item of the list is enabled and asks for administrator rights.
pub open spec fn some_enabled_admin_item(items: Seq<StartupItemView>) -> bool {
    exists|i: int| 0 <= i < items.len() && items[i].enabled && items[i].run_as_admin
}

/// Draws a new random identifier.
///
/// Trusted: stands for `uuid::Uuid::new_v4` followed by `to_string`. The
/// first sets the version digit to 4 and the two highest bits of the variant
/// digit to `10`; the second writes the 16 bytes as lower-case hexadecimal
/// digits with hyphens after the 8th, 12th, 16th and 20th digit. Which digits
/// come out is left to the operating system's random source, and nothing is
/// claimed of them. `new_v4` panics where that source cannot be read.
#[verifier::external_body]
fn fresh_identifier() -> (id: String)
    ensures
        is_identifier(id@),
{
    uuid::Uuid::new_v4().to_string()
}

/// Makes a new item: a fresh identifier, a program to start rather than a
/// command, enabled, without administrator rights, and with a delay of five
/// seconds that is switched off. All texts but the identifier are empty.
pub fn create_startup_item() -> (item: StartupItem)
    ensures
        is_identifier(item@.id),
        item@ == blank_item(item@.id),
{
    StartupItem {
        id: fresh_identifier(),
        name: String::new(),
        mode: owned("normal"),
        executable_path: String::new(),
        display_name: String::new(),
        icon: String::new(),
        arguments: String::new(),
        command: String::new(),
        run_as_admin: false,
        enabled: true,
        delay_enabled: false,
        delay_seconds: 5,
    }
}

/// Tells whether some enabled item of the list asks for administrator
/// rights.
pub fn has_admin_startup_items(items: &Vec<StartupItem>) -> (found: bool)
    ensures
        found == some_enabled_admin_item(item_views(items@)),
{
    let mut i: usize = 0;
    while i < items.len()
        invariant
            i <= items.len(),
            forall|k: int|
                0 <= k < i ==> !(item_views(items@)[k].enabled && item_views(
                    items@,
                )[k].run_as_admin),
        decreases items.len() - i,
    {
        if items[i].enabled && items[i].run_as_admin {
            assert(item_views(items@)[i as int] == items@[i as int]@);
            return true;
        }
        i += 1;
    }
    false
}

} // verus!
