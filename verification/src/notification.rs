//! The desktop notification that announces a saved capture.

use vstd::prelude::*;
use vstd::string::*;

verus! {

/// The translated texts a notification is built from.
#[derive(Clone, Debug)]
pub struct MessageCatalog {
    /// The application's display name.
    pub app_name: String,
    /// The summary for a capture that went to the clipboard.
    pub saved_to_clipboard: String,
    /// The summary for a capture that was saved to a file.
    pub saved_to_file: String,
}

/// The arguments of one notification call.
#[derive(Clone, Debug)]
pub struct NotificationMessage {
    pub app_name: String,
    /// The notification to replace; 0 replaces none.
    pub replaces_id: u32,
    pub app_icon: String,
    pub summary: String,
    /// The saved path, or empty for the clipboard.
    pub body: String,
    /// The actions offered; always none.
    pub actions: Vec<String>,
    /// Whether the notification may skip the notification history.
    pub transient: bool,
    /// How long the notification stays, in milliseconds.
    pub expire_timeout: i32,
}

/// The summary for a saved path: the clipboard text for the empty path, the
/// file text otherwise.
pub open spec fn summary_for(catalog: MessageCatalog, path: Seq<char>) -> Seq<char> {
    if path.len() == 0 {
        catalog.saved_to_clipboard@
    } else {
        catalog.saved_to_file@
    }
}

/// Whether `message` is the notification for `path` under `catalog`.
pub open spec fn announces(
    message: NotificationMessage,
    catalog: MessageCatalog,
    path: Seq<char>,
) -> bool {
    &&& message.app_name@ == catalog.app_name@
    &&& message.replaces_id == 0
    &&& message.app_icon@ == "com.system76.CosmicScreenshot"@
    &&& message.summary@ == summary_for(catalog, path)
    &&& message.body@ == path
    &&& message.actions@.len() == 0
    &&& message.transient
    &&& message.expire_timeout == 5000
}

/// The notification to send for a capture saved at `path` (empty for the
/// clipboard): none where notifications are switched off, else the one
/// notification that announces the path.
pub fn plan_notification(notify: bool, catalog: &MessageCatalog, path: &str) -> (r: Option<
    NotificationMessage,
>)
    ensures
        r is Some <==> notify,
        r matches Some(message) ==> announces(message, *catalog, path@),
{
    if !notify {
        return None;
    }
    let summary = if path.unicode_len() == 0 {
        catalog.saved_to_clipboard.clone()
    } else {
        catalog.saved_to_file.clone()
    };
    Some(
        NotificationMessage {
            app_name: catalog.app_name.clone(),
            replaces_id: 0,
            app_icon: String::from_str("com.system76.CosmicScreenshot"),
            summary,
            body: String::from_str(path),
            actions: Vec::new(),
            transient: true,
            expire_timeout: 5000,
        },
    )
}

} // verus!
