//! The values persisted between runs: the three credentials and the
//! watermark (the highest notification id already delivered).

use vstd::prelude::*;

verus! {

/// Persistent state of the tool. The three tokens authenticate against the
/// notification source and the push-delivery service; `latest_notification_id`
/// is the watermark: the highest notification id already delivered.
pub struct Config {
    pub app_token: String,
    pub user_token: String,
    pub anilist_token: String,
    pub latest_notification_id: u32,
}

impl Config {
    /// A run may only proceed when all three credentials are non-empty.
    pub fn credentials_present(&self) -> (r: bool)
        ensures
            r == (self.app_token@.len() > 0 && self.user_token@.len() > 0
                && self.anilist_token@.len() > 0),
    {
        !self.app_token.as_str().is_empty() && !self.user_token.as_str().is_empty()
            && !self.anilist_token.as_str().is_empty()
    }

    /// Merges command-line overrides into the stored values: a given token
    /// replaces the stored one, an absent flag leaves it unchanged, and
    /// `reset` forces the watermark back to zero. Returns whether anything
    /// was overridden, which is when the store must be written back.
    pub fn apply_overrides(
        &mut self,
        app_token: Option<String>,
        user_token: Option<String>,
        anilist_token: Option<String>,
        reset: bool,
    ) -> (changed: bool)
        ensures
            final(self).app_token == match app_token {
                Some(t) => t,
                None => old(self).app_token,
            },
            final(self).user_token == match user_token {
                Some(t) => t,
                None => old(self).user_token,
            },
            final(self).anilist_token == match anilist_token {
                Some(t) => t,
                None => old(self).anilist_token,
            },
            final(self).latest_notification_id == if reset {
                0u32
            } else {
                old(self).latest_notification_id
            },
            changed == (app_token is Some || user_token is Some || anilist_token is Some
                || reset),
    {
        let mut changed: bool = false;
        match app_token {
            Some(t) => {
                self.app_token = t;
                changed = true;
            },
            None => {},
        }
        match user_token {
            Some(t) => {
                self.user_token = t;
                changed = true;
            },
            None => {},
        }
        match anilist_token {
            Some(t) => {
                self.anilist_token = t;
                changed = true;
            },
            None => {},
        }
        if reset {
            self.latest_notification_id = 0;
            changed = true;
        }
        changed
    }
}

impl Default for Config {
    /// A fresh store holds empty credentials and a zero watermark.
    fn default() -> (c: Config)
        ensures
            c.app_token@ == Seq::<char>::empty(),
            c.user_token@ == Seq::<char>::empty(),
            c.anilist_token@ == Seq::<char>::empty(),
            c.latest_notification_id == 0,
    {
        Config {
            app_token: String::new(),
            user_token: String::new(),
            anilist_token: String::new(),
            latest_notification_id: 0,
        }
    }
}

} // verus!
