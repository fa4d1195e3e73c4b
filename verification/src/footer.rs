use vstd::prelude::*;
use crate::notification::Notification;
use crate::notification::NotificationKind;

verus! {

/// The colour a banner is painted in.
#[derive(Debug, Clone, Copy, PartialEq, Eq, Structural)]
pub enum BannerColor {
    Red,
    Cyan,
}

/// The status line. It shows the newest notification for as long as any
/// notification is still waiting to be cleared.
pub struct Footer {
    pub noty: Option<Notification>,
    pub noty_counter: u32,
}

/// The footer after a notification is shown: the newest content replaces the old,
/// and one more clear is awaited.
pub open spec fn shown(footer: Footer, noty: Notification) -> Footer {
    Footer {
        noty: Some(noty),
        noty_counter: if footer.noty_counter < u32::MAX {
            (footer.noty_counter + 1) as u32
        } else {
            footer.noty_counter
        },
    }
}

/// The footer after one clear: the banner goes only with the last awaited clear.
pub open spec fn cleared(footer: Footer) -> Footer {
    if footer.noty_counter == 0 {
        footer
    } else if footer.noty_counter == 1 {
        Footer { noty: None, noty_counter: 0 }
    } else {
        Footer { noty: footer.noty, noty_counter: (footer.noty_counter - 1) as u32 }
    }
}

impl Default for Footer {
    fn default() -> (out: Footer)
        ensures
            out == (Footer { noty: None, noty_counter: 0 }),
    {
        Footer { noty: None, noty_counter: 0 }
    }
}

impl Footer {
    /// Nothing is displayed exactly when no banner is held.
    pub open spec fn displayed(self) -> Option<Notification> {
        self.noty
    }

    /// A banner is held exactly while clears are awaited.
    pub open spec fn wf(self) -> bool {
        (self.noty_counter == 0) <==> (self.noty is None)
    }

    /// Shows `noty` in place of whatever was shown, and counts one more pending clear.
    /// At the limit of the counter the count stays where it is.
    pub fn show_notification(&mut self, noty: Notification)
        ensures
            *final(self) == shown(*old(self), noty),
    {
        self.noty = Some(noty);
        if self.noty_counter < u32::MAX {
            self.noty_counter += 1;
        }
    }

    /// Counts one pending clear off; the banner is hidden when none is left. With no
    /// clear pending the footer stays as it is.
    pub fn clear_notification(&mut self)
        ensures
            *final(self) == cleared(*old(self)),
    {
        if self.noty_counter > 0 {
            self.noty_counter -= 1;
            if self.noty_counter == 0 {
                self.noty = None;
            }
        }
    }

    /// The text to paint: the banner's message, or nothing.
    pub fn content(&self) -> (out: &str)
        ensures
            out@ == match self.noty {
                Some(noty) => noty.msg@,
                None => Seq::<char>::empty(),
            },
    {
        proof {
            reveal_strlit("");
        }
        match &self.noty {
            Some(noty) => noty.msg(),
            None => "",
        }
    }

    /// The colour to paint the banner in, when there is one.
    pub fn color(&self) -> (out: Option<BannerColor>)
        ensures
            out == match self.noty {
                Some(noty) => Some(Self::map_color_spec(noty.kind)),
                None => None,
            },
    {
        match &self.noty {
            Some(noty) => Some(Self::map_color(noty)),
            None => None,
        }
    }

    pub open spec fn map_color_spec(kind: NotificationKind) -> BannerColor {
        match kind {
            NotificationKind::Error => BannerColor::Red,
            NotificationKind::Info => BannerColor::Cyan,
        }
    }

    /// Errors are red, information is cyan.
    pub fn map_color(noty: &Notification) -> (out: BannerColor)
        ensures
            out == Self::map_color_spec(noty.kind),
    {
        match noty.kind() {
            NotificationKind::Error => BannerColor::Red,
            NotificationKind::Info => BannerColor::Cyan,
        }
    }
}

/// Showing and clearing keep the banner and the count in step.
pub proof fn lemma_footer_wf_preserved(footer: Footer, noty: Notification)
    requires
        footer.wf(),
    ensures
        shown(footer, noty).wf(),
        cleared(footer).wf(),
{
}

/// Two notifications shown one after the other, then cleared twice: after the first
/// clear the second notification is still displayed, after the second clear nothing
/// is. The count of pending clears goes 0, 1, 2, 1, 0.
pub proof fn lemma_newest_outlives_older_clear(first: Notification, second: Notification)
    ensures
        ({
            let start = Footer { noty: None, noty_counter: 0 };
            let one = shown(start, first);
            let two = shown(one, second);
            let three = cleared(two);
            let four = cleared(three);
            &&& one.noty_counter == 1
            &&& two.noty_counter == 2
            &&& three.noty_counter == 1
            &&& four.noty_counter == 0
            &&& one.displayed() == Some(first)
            &&& two.displayed() == Some(second)
            &&& three.displayed() == Some(second)
            &&& four.displayed() == None::<Notification>
        }),
{
}

/// However many notifications were shown, the banner disappears exactly with the
/// clear that brings the count of pending clears to zero.
pub proof fn lemma_clear_hides_only_at_zero(footer: Footer)
    requires
        footer.wf(),
    ensures
        cleared(footer).displayed() is None <==> footer.noty_counter <= 1,
        footer.noty_counter > 1 ==> cleared(footer).displayed() == footer.displayed(),
{
}

} // verus!
