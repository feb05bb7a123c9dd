use vstd::prelude::*;

verus! {

/// The content of a system notification: a required title and an optional
/// body. The OS notification center displays it; the shim only assembles it.
#[derive(Clone, Debug)]
pub struct NotificationRequest {
    pub title: String,
    pub body: Option<String>,
}

/// Assemble the notification a notify command shows: exactly the given
/// title, and the body only when one was given.
pub fn notification_request(title: String, body: Option<String>) -> (r: NotificationRequest)
    ensures
        r.title == title,
        r.body == body,
{
    NotificationRequest { title, body }
}

} // verus!
