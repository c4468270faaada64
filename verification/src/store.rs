//! The two stores: the list of startup items and the settings record.
//!
//! Each store is one file that is read and written as a whole. Reading and
//! writing belong to the caller; what is decided here is what a store that
//! was never written holds, where the files lie, and how a failure is
//! reported.

use vstd::prelude::*;
use crate::error::{StartupError, StartupErrorView};
use crate::item::{item_views, StartupItem, StartupItemView};
use crate::settings::{default_app_settings, default_settings, AppSettings};
use crate::text::joined;

verus! {

/// The directory, beside the program, in which both files lie.
pub const DATA_DIRECTORY: &'static str = "data";

/// The file that holds the list of startup items.
pub const ITEMS_FILE: &'static str = "startup_items.json";

/// The file that holds the settings record.
pub const SETTINGS_FILE: &'static str = "app_settings.json";

/// One of the two stores.
#[derive(Clone, Copy, Debug, PartialEq, Eq, Structural)]
pub enum Store {
    Items,
    Settings,
}

/// The step of reading or writing a store that failed.
#[derive(Clone, Copy, Debug, PartialEq, Eq, Structural)]
pub enum StoreFault {
    /// The place of the program, and with it of the data directory, could
    /// not be found out.
    Locate,
    /// The data directory could not be created.
    CreateDirectory,
    /// The file could not be read.
    Read,
    /// The file does not hold what the store expects.
    Parse,
    /// The value could not be written down as text.
    Encode,
    /// The file could not be written.
    Write,
}

/// The fault lies in what a file holds, not in reaching it.
pub open spec fn is_format_fault(fault: StoreFault) -> bool {
    fault == StoreFault::Parse || fault == StoreFault::Encode
}

/// The words that open the message for a fault.
pub open spec fn fault_prefix(store: Store, fault: StoreFault) -> Seq<char> {
    match (store, fault) {
        (_, StoreFault::Locate) => "Failed to get executable path: "@,
        (Store::Items, StoreFault::CreateDirectory) => "Failed to create data directory: "@,
        (Store::Items, StoreFault::Read) => "Failed to read startup items file: "@,
        (Store::Items, StoreFault::Parse) => "Failed to parse startup items: "@,
        (Store::Items, StoreFault::Encode) => "Failed to serialize startup items: "@,
        (Store::Items, StoreFault::Write) => "Failed to write startup items file: "@,
        (Store::Settings, StoreFault::CreateDirectory) => "创建设置目录失败: "@,
        (Store::Settings, StoreFault::Read) => "读取设置文件失败: "@,
        (Store::Settings, StoreFault::Parse) => "解析设置文件失败: "@,
        (Store::Settings, StoreFault::Encode) => "序列化设置失败: "@,
        (Store::Settings, StoreFault::Write) => "写入设置文件失败: "@,
    }
}

/// The error for a fault: a format error where the fault lies in what the
/// file holds, an I/O error otherwise. Its message ends with `detail`.
pub open spec fn store_error_of(store: Store, fault: StoreFault, detail: Seq<char>) -> StartupErrorView {
    if is_format_fault(fault) {
        StartupErrorView::Format(fault_prefix(store, fault) + detail)
    } else {
        StartupErrorView::Io(fault_prefix(store, fault) + detail)
    }
}

/// What a settings store holds: the record that was saved, or the default
/// record if none was.
pub open spec fn settings_held(stored: Option<AppSettings>) -> AppSettings {
    match stored {
        Some(settings) => settings,
        None => default_settings(),
    }
}

/// What an item store holds: the list that was saved, or the empty list if
/// none was.
pub open spec fn items_held(stored: Option<Seq<StartupItemView>>) -> Seq<StartupItemView> {
    match stored {
        Some(items) => items,
        None => Seq::empty(),
    }
}

/// A store that holds the settings it held before holds the same settings,
/// whether anything had been saved before or not.
///
/// This speaks of the record as a value, with saving taken to keep the value
/// as it is. It says nothing of the text of the file, which the caller
/// encodes and decodes.
pub proof fn lemma_settings_survive_saving(stored: Option<AppSettings>)
    ensures
        settings_held(Some(settings_held(stored))) == settings_held(stored),
        settings_held(None) == default_settings(),
{
}

/// A store that holds the list it held before holds the same list, whether
/// anything had been saved before or not.
///
/// This speaks of the list as a value, with saving taken to keep the value
/// as it is. It says nothing of the text of the file, which the caller
/// encodes and decodes.
pub proof fn lemma_items_survive_saving(stored: Option<Seq<StartupItemView>>)
    ensures
        items_held(Some(items_held(stored))) == items_held(stored),
        items_held(None) == Seq::<StartupItemView>::empty(),
{
}

/// Returns the name of the file of a store.
pub fn file_name(store: Store) -> (name: &'static str)
    ensures
        name@ == match store {
            Store::Items => ITEMS_FILE@,
            Store::Settings => SETTINGS_FILE@,
        },
{
    match store {
        Store::Items => ITEMS_FILE,
        Store::Settings => SETTINGS_FILE,
    }
}

/// Returns the settings that a store holds. `stored` is the record read from
/// the file, or `None` if there is no file: that is no error, and gives the
/// default record.
pub fn loaded_settings(stored: Option<AppSettings>) -> (settings: AppSettings)
    ensures
        settings == settings_held(stored),
{
    match stored {
        Some(settings) => settings,
        None => default_app_settings(),
    }
}

/// Returns the list that a store holds. `stored` is the list read from the
/// file, or `None` if there is no file: that is no error, and gives the
/// empty list.
pub fn loaded_items(stored: Option<Vec<StartupItem>>) -> (items: Vec<StartupItem>)
    ensures
        item_views(items@) == items_held(
            match stored {
                Some(list) => Some(item_views(list@)),
                None => None,
            },
        ),
{
    match stored {
        Some(list) => list,
        None => {
            let items: Vec<StartupItem> = Vec::new();
            assert(item_views(items@) == Seq::<StartupItemView>::empty());
            items
        },
    }
}

/// Returns the error for a step that failed. `detail` is what the operating
/// system or the decoder said.
pub fn store_error(store: Store, fault: StoreFault, detail: &str) -> (error: StartupError)
    ensures
        error@ == store_error_of(store, fault, detail@),
{
    let prefix = match fault {
        StoreFault::Locate => "Failed to get executable path: ",
        StoreFault::CreateDirectory => match store {
            Store::Items => "Failed to create data directory: ",
            Store::Settings => "创建设置目录失败: ",
        },
        StoreFault::Read => match store {
            Store::Items => "Failed to read startup items file: ",
            Store::Settings => "读取设置文件失败: ",
        },
        StoreFault::Parse => match store {
            Store::Items => "Failed to parse startup items: ",
            Store::Settings => "解析设置文件失败: ",
        },
        StoreFault::Encode => match store {
            Store::Items => "Failed to serialize startup items: ",
            Store::Settings => "序列化设置失败: ",
        },
        StoreFault::Write => match store {
            Store::Items => "Failed to write startup items file: ",
            Store::Settings => "写入设置文件失败: ",
        },
    };
    let message = joined(prefix, detail);
    match fault {
        StoreFault::Parse => StartupError::Format(message),
        StoreFault::Encode => StartupError::Format(message),
        _ => StartupError::Io(message),
    }
}

} // verus!
