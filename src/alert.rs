use vstd::prelude::*;

verus! {

/// A message box that is either shown with a message or hidden.
#[derive(Debug)]
pub struct Alert {
    pub alert_visible: bool,
    pub alert_message: String,
}

impl Alert {
    /// A hidden alert with no message.
    pub fn new() -> (a: Alert)
        ensures
            !a.alert_visible,
            a.alert_message@ == Seq::<char>::empty(),
    {
        Alert { alert_visible: false, alert_message: String::new() }
    }

    /// Shows `message`.
    pub fn show_alert(&mut self, message: &str)
        ensures
            final(self).alert_visible,
            final(self).alert_message@ == message@,
    {
        self.alert_visible = true;
        self.alert_message = message.to_owned();
    }

    /// Hides the alert; its message stays.
    pub fn hide_alert(&mut self)
        ensures
            !final(self).alert_visible,
            final(self).alert_message@ == old(self).alert_message@,
    {
        self.alert_visible = false;
    }

    pub fn is_visible(&self) -> (b: bool)
        ensures
            b == self.alert_visible,
    {
        self.alert_visible
    }

    pub fn message(&self) -> (m: &str)
        ensures
            m@ == self.alert_message@,
    {
        self.alert_message.as_str()
    }
}

} // verus!
