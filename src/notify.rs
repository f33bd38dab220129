use vstd::prelude::*;
use crate::error::AppError;
use crate::json::{json_str_at, json_text_at, read_str_at, read_text_at};
use crate::time::{parse_rfc3339, rfc3339_seconds};
use crate::realtime::ChangeEvent;
use crate::text::{copy_opt, str_eq};

verus! {

/// The notification categories a user can switch, under the master switch
/// `Push`.
#[derive(PartialEq, Eq, Structural, Clone, Copy)]
pub enum Category {
    Push,
    Discount,
    Shop,
    Brand,
    Category,
}

/// A user's notification switches. Times are Unix seconds.
pub struct NotificationSettings {
    pub user_id: String,
    pub push_enabled: bool,
    pub discount_notifications: bool,
    pub shop_notifications: bool,
    pub brand_notifications: bool,
    pub category_notifications: bool,
    pub created_at: i64,
    pub updated_at: i64,
}

/// A notification for a user. Times are Unix seconds; `read_at` stays
/// empty until the user reads it.
pub struct Notification {
    pub id: String,
    pub user_id: String,
    pub actor_id: Option<String>,
    pub notification_type: String,
    pub target_type: Option<String>,
    pub target_id: Option<String>,
    pub read_at: Option<i64>,
    pub created_at: i64,
}

/// The setting word that governs a notification type: each event type
/// (`discount_update`, `shop_subscription`, `brand_subscription`,
/// `category_subscription`) stands for its category's word; any other type
/// is taken as a word itself.
pub open spec fn setting_word_of_type(t: Seq<char>) -> Seq<char> {
    if t == "discount_update"@ {
        "discount"@
    } else if t == "shop_subscription"@ {
        "shop"@
    } else if t == "brand_subscription"@ {
        "brand"@
    } else if t == "category_subscription"@ {
        "category"@
    } else {
        t
    }
}

/// The category whose switch a receipt check consults: only the words
/// `discount`, `shop`, `brand` and `category` name one.
pub open spec fn receivable_category(word: Seq<char>) -> Option<Category> {
    if word == "discount"@ {
        Some(Category::Discount)
    } else if word == "shop"@ {
        Some(Category::Shop)
    } else if word == "brand"@ {
        Some(Category::Brand)
    } else if word == "category"@ {
        Some(Category::Category)
    } else {
        None
    }
}

/// The category named by a setting word: `push`, `discount`, `shop`,
/// `brand` or `category`.
pub open spec fn setting_of(word: Seq<char>) -> Option<Category> {
    if word == "push"@ {
        Some(Category::Push)
    } else if word == "discount"@ {
        Some(Category::Discount)
    } else if word == "shop"@ {
        Some(Category::Shop)
    } else if word == "brand"@ {
        Some(Category::Brand)
    } else if word == "category"@ {
        Some(Category::Category)
    } else {
        None
    }
}

pub open spec fn switch_of(s: NotificationSettings, c: Category) -> bool {
    match c {
        Category::Push => s.push_enabled,
        Category::Discount => s.discount_notifications,
        Category::Shop => s.shop_notifications,
        Category::Brand => s.brand_notifications,
        Category::Category => s.category_notifications,
    }
}

/// A user with settings `s` may receive notifications of the category
/// named by `word` when the master switch and that category's switch are
/// both on; any other word is refused.
pub open spec fn may_receive(s: NotificationSettings, word: Seq<char>) -> bool {
    match receivable_category(word) {
        Some(c) => s.push_enabled && switch_of(s, c),
        None => false,
    }
}

/// A user with settings `s` receives notifications of type `t`: the check
/// on the setting word that governs `t`.
pub open spec fn receives(s: NotificationSettings, t: Seq<char>) -> bool {
    may_receive(s, setting_word_of_type(t))
}

/// `s` is the default record of user `u`, made at `now`: every switch on.
pub open spec fn is_default_for(s: NotificationSettings, u: Seq<char>, now: i64) -> bool {
    &&& s.user_id@ == u
    &&& s.push_enabled
    &&& s.discount_notifications
    &&& s.shop_notifications
    &&& s.brand_notifications
    &&& s.category_notifications
    &&& s.created_at == now
    &&& s.updated_at == now
}

/// `n` is `c` as stored: unread, every other field kept.
pub open spec fn stored_form(n: Notification, c: Notification) -> bool {
    &&& n.id == c.id
    &&& n.user_id == c.user_id
    &&& n.actor_id == c.actor_id
    &&& n.notification_type == c.notification_type
    &&& n.target_type == c.target_type
    &&& n.target_id == c.target_id
    &&& n.read_at is None
    &&& n.created_at == c.created_at
}

/// The setting word that governs `notification_type`.
pub fn setting_word_for_type(notification_type: &str) -> (r: String)
    ensures
        r@ == setting_word_of_type(notification_type@),
{
    if str_eq(notification_type, "discount_update") {
        String::from_str("discount")
    } else if str_eq(notification_type, "shop_subscription") {
        String::from_str("shop")
    } else if str_eq(notification_type, "brand_subscription") {
        String::from_str("brand")
    } else if str_eq(notification_type, "category_subscription") {
        String::from_str("category")
    } else {
        String::from_str(notification_type)
    }
}

pub fn setting_category(word: &str) -> (r: Option<Category>)
    ensures
        r == setting_of(word@),
{
    if str_eq(word, "push") {
        Some(Category::Push)
    } else if str_eq(word, "discount") {
        Some(Category::Discount)
    } else if str_eq(word, "shop") {
        Some(Category::Shop)
    } else if str_eq(word, "brand") {
        Some(Category::Brand)
    } else if str_eq(word, "category") {
        Some(Category::Category)
    } else {
        None
    }
}

/// The record made for a user who has none: every switch on.
pub fn default_settings(user_id: &str, now: i64) -> (r: NotificationSettings)
    ensures
        is_default_for(r, user_id@, now),
{
    NotificationSettings {
        user_id: String::from_str(user_id),
        push_enabled: true,
        discount_notifications: true,
        shop_notifications: true,
        brand_notifications: true,
        category_notifications: true,
        created_at: now,
        updated_at: now,
    }
}

impl Notification {
    /// Marks the notification as read at `at`; nothing else changes.
    pub fn mark_read(&mut self, at: i64)
        ensures
            *final(self) == (Notification { read_at: Some(at), ..*old(self) }),
    {
        self.read_at = Some(at);
    }
}

impl NotificationSettings {
    pub fn duplicate(&self) -> (r: NotificationSettings)
        ensures
            r == *self,
    {
        NotificationSettings {
            user_id: self.user_id.clone(),
            push_enabled: self.push_enabled,
            discount_notifications: self.discount_notifications,
            shop_notifications: self.shop_notifications,
            brand_notifications: self.brand_notifications,
            category_notifications: self.category_notifications,
            created_at: self.created_at,
            updated_at: self.updated_at,
        }
    }

    pub fn is_enabled(&self, c: Category) -> (r: bool)
        ensures
            r == switch_of(*self, c),
    {
        match c {
            Category::Push => self.push_enabled,
            Category::Discount => self.discount_notifications,
            Category::Shop => self.shop_notifications,
            Category::Brand => self.brand_notifications,
            Category::Category => self.category_notifications,
        }
    }

    /// Sets one switch and stamps the record with `now`.
    pub fn set_enabled(&mut self, c: Category, enabled: bool, now: i64)
        ensures
            switch_of(*final(self), c) == enabled,
            forall|o: Category| o != c ==> switch_of(*final(self), o) == switch_of(*old(self), o),
            final(self).user_id == old(self).user_id,
            final(self).created_at == old(self).created_at,
            final(self).updated_at == now,
    {
        match c {
            Category::Push => self.push_enabled = enabled,
            Category::Discount => self.discount_notifications = enabled,
            Category::Shop => self.shop_notifications = enabled,
            Category::Brand => self.brand_notifications = enabled,
            Category::Category => self.category_notifications = enabled,
        }
        self.updated_at = now;
    }
}

/// Switches the category named by `notification_type` (a setting word) on
/// or off; an unknown word is refused and the record left as it was.
pub fn toggle_notification_type(
    settings: &mut NotificationSettings,
    notification_type: &str,
    enabled: bool,
    now: i64,
) -> (r: Result<(), AppError>)
    ensures
        setting_of(notification_type@) is None <==> r is Err,
        r matches Err(e) ==> (e matches AppError::Validation(m) && m@ == "Invalid notification type"@)
            && *final(settings) == *old(settings),
        setting_of(notification_type@) matches Some(c) ==> {
            &&& switch_of(*final(settings), c) == enabled
            &&& forall|o: Category|
                o != c ==> switch_of(*final(settings), o) == switch_of(*old(settings), o)
            &&& final(settings).user_id == old(settings).user_id
            &&& final(settings).created_at == old(settings).created_at
            &&& final(settings).updated_at == now
        },
{
    match setting_category(notification_type) {
        Some(c) => {
            settings.set_enabled(c, enabled, now);
            Ok(())
        },
        None => Err(AppError::validation("Invalid notification type")),
    }
}

/// Whether a user with `settings` may receive notifications of the
/// category named by the setting word `notification_type` (`discount`,
/// `shop`, `brand` or `category`); every other word gives false.
pub fn can_receive_notification(settings: &NotificationSettings, notification_type: &str) -> (r:
    bool)
    ensures
        r == may_receive(*settings, notification_type@),
{
    if str_eq(notification_type, "discount") {
        settings.push_enabled && settings.discount_notifications
    } else if str_eq(notification_type, "shop") {
        settings.push_enabled && settings.shop_notifications
    } else if str_eq(notification_type, "brand") {
        settings.push_enabled && settings.brand_notifications
    } else if str_eq(notification_type, "category") {
        settings.push_enabled && settings.category_notifications
    } else {
        false
    }
}

/// The filter gate: `candidate` in its stored, unread form when the user's
/// switches let it through; nothing when they filter it out.
pub fn screen_notification(settings: &NotificationSettings, candidate: Notification) -> (r: Option<Notification>)
    ensures
        r is Some <==> receives(*settings, candidate.notification_type@),
        r matches Some(n) ==> stored_form(n, candidate),
{
    let word = setting_word_for_type(candidate.notification_type.as_str());
    if can_receive_notification(settings, word.as_str()) {
        Some(Notification { read_at: None, ..candidate })
    } else {
        None
    }
}

/// The notification that a row of the notifications table describes, from
/// its fields; `None` unless it has an id, a user, a type and a readable
/// creation time, and its read time is readable (`Some(None)`: not read).
pub fn notification_from_parts(
    id: Option<String>,
    user_id: Option<String>,
    notification_type: Option<String>,
    actor_id: Option<String>,
    target_type: Option<String>,
    target_id: Option<String>,
    created_at: Option<i64>,
    read_at: Option<Option<i64>>,
) -> (r: Option<Notification>)
    ensures
        (id is Some && user_id is Some && notification_type is Some && created_at is Some
            && read_at is Some) <==> r is Some,
        r matches Some(n) ==> {
            &&& Some(n.id) == id
            &&& Some(n.user_id) == user_id
            &&& Some(n.notification_type) == notification_type
            &&& n.actor_id == actor_id
            &&& n.target_type == target_type
            &&& n.target_id == target_id
            &&& Some(n.created_at) == created_at
            &&& Some(n.read_at) == read_at
        },
{
    match (id, user_id, notification_type, created_at, read_at) {
        (Some(i), Some(u), Some(t), Some(c), Some(ra)) => Some(
            Notification {
                id: i,
                user_id: u,
                actor_id,
                notification_type: t,
                target_type,
                target_id,
                read_at: ra,
                created_at: c,
            },
        ),
        _ => None,
    }
}

pub open spec fn str_field(doc: Seq<char>, ptr: Seq<char>, v: Option<String>) -> bool {
    match v {
        Some(s) => json_str_at(doc, ptr) == Some(s@),
        None => json_str_at(doc, ptr) is None,
    }
}

/// The time, in Unix seconds, held as RFC 3339 text at `ptr` of `doc`.
pub open spec fn time_at(doc: Seq<char>, ptr: Seq<char>) -> Option<i64> {
    match json_str_at(doc, ptr) {
        Some(t) => rfc3339_seconds(t),
        None => None,
    }
}

/// The read time of a row: `Some(None)` when it is absent or null,
/// `Some(Some(t))` when it is a readable time, `None` when it is unreadable.
pub open spec fn read_time_of(doc: Seq<char>) -> Option<Option<i64>> {
    match json_text_at(doc, "/read_at"@) {
        None => Some(None),
        Some(x) => if x == "null"@ {
            Some(None)
        } else {
            match time_at(doc, "/read_at"@) {
                Some(t) => Some(Some(t)),
                None => None,
            }
        },
    }
}

fn time_in(doc: &str, ptr: &str) -> (r: Option<i64>)
    ensures
        r == time_at(doc@, ptr@),
{
    match read_str_at(doc, ptr) {
        Some(t) => parse_rfc3339(t.as_str()),
        None => None,
    }
}

fn read_time_in(doc: &str) -> (r: Option<Option<i64>>)
    ensures
        r == read_time_of(doc@),
{
    match read_text_at(doc, "/read_at") {
        None => Some(None),
        Some(x) => {
            if str_eq(x.as_str(), "null") {
                Some(None)
            } else {
                match time_in(doc, "/read_at") {
                    Some(t) => Some(Some(t)),
                    None => None,
                }
            }
        },
    }
}

/// The notification carried by a change on the notifications feed: the
/// changed row as stored, with its own creation and read times.
pub fn notification_from_event(event: &ChangeEvent) -> (r: Option<Notification>)
    ensures
        event.record is None ==> r is None,
        event.record matches Some(rec) ==> {
            &&& r is Some <==> {
                &&& json_str_at(rec@, "/id"@) is Some
                &&& json_str_at(rec@, "/user_id"@) is Some
                &&& json_str_at(rec@, "/type"@) is Some
                &&& time_at(rec@, "/created_at"@) is Some
                &&& read_time_of(rec@) is Some
            }
            &&& r matches Some(n) ==> {
                &&& json_str_at(rec@, "/id"@) == Some(n.id@)
                &&& json_str_at(rec@, "/user_id"@) == Some(n.user_id@)
                &&& json_str_at(rec@, "/type"@) == Some(n.notification_type@)
                &&& str_field(rec@, "/actor_id"@, n.actor_id)
                &&& str_field(rec@, "/target_type"@, n.target_type)
                &&& str_field(rec@, "/target_id"@, n.target_id)
                &&& time_at(rec@, "/created_at"@) == Some(n.created_at)
                &&& read_time_of(rec@) == Some(n.read_at)
            }
        },
{
    match &event.record {
        Some(rec) => {
            let doc = rec.as_str();
            notification_from_parts(
                read_str_at(doc, "/id"),
                read_str_at(doc, "/user_id"),
                read_str_at(doc, "/type"),
                read_str_at(doc, "/actor_id"),
                read_str_at(doc, "/target_type"),
                read_str_at(doc, "/target_id"),
                time_in(doc, "/created_at"),
                read_time_in(doc),
            )
        },
        None => None,
    }
}

/// How many records of `recs` belong to user `u`.
pub open spec fn count_for(recs: Seq<NotificationSettings>, u: Seq<char>) -> nat
    decreases recs.len(),
{
    if recs.len() == 0 {
        0
    } else {
        count_for(recs.drop_last(), u) + if recs.last().user_id@ == u {
            1nat
        } else {
            0nat
        }
    }
}

pub open spec fn has_user(recs: Seq<NotificationSettings>, u: Seq<char>) -> bool {
    exists|j: int| 0 <= j < recs.len() && #[trigger] recs[j].user_id@ == u
}

/// One guarded look-up of user `u`: a store that holds a record for `u` is
/// left as it is; one that holds none gains exactly one record, for `u`.
pub open spec fn lookup_step(before: Seq<NotificationSettings>, after: Seq<NotificationSettings>, u: Seq<char>) -> bool {
    if has_user(before, u) {
        after == before
    } else {
        &&& after.len() == before.len() + 1
        &&& after.drop_last() == before
        &&& after.last().user_id@ == u
    }
}

/// No two records belong to the same user.
pub open spec fn one_per_user(recs: Seq<NotificationSettings>) -> bool {
    forall|i: int, j: int|
        0 <= i < j < recs.len() ==> #[trigger] recs[i].user_id@ != #[trigger] recs[j].user_id@
}

proof fn lemma_push_keeps_one(recs: Seq<NotificationSettings>, s: NotificationSettings)
    requires
        one_per_user(recs),
        !has_user(recs, s.user_id@),
    ensures
        one_per_user(recs.push(s)),
{
    let n = recs.push(s);
    assert forall|i: int, j: int| 0 <= i < j < n.len() implies #[trigger] n[i].user_id@
        != #[trigger] n[j].user_id@ by {
        assert(n[i] == recs[i]);
        if j < recs.len() {
            assert(n[j] == recs[j]);
        }
    }
}

proof fn lemma_update_keeps_one(recs: Seq<NotificationSettings>, k: int, s: NotificationSettings)
    requires
        one_per_user(recs),
        0 <= k < recs.len(),
        recs[k].user_id@ == s.user_id@,
    ensures
        one_per_user(recs.update(k, s)),
{
    let n = recs.update(k, s);
    assert forall|i: int, j: int| 0 <= i < j < n.len() implies #[trigger] n[i].user_id@
        != #[trigger] n[j].user_id@ by {
        assert(n[i].user_id@ == recs[i].user_id@);
        assert(n[j].user_id@ == recs[j].user_id@);
    }
}

/// The settings records, created only through a guarded create-if-absent:
/// a user never gets a second record.
pub struct SettingsStore {
    pub records: Vec<NotificationSettings>,
}

impl SettingsStore {
    /// At most one record per user.
    pub open spec fn wf(&self) -> bool {
        one_per_user(self.records@)
    }

    pub fn new() -> (r: SettingsStore)
        ensures
            r.wf(),
            r.records@.len() == 0,
    {
        SettingsStore { records: Vec::new() }
    }

    /// The index of the first record of `user_id`.
    pub fn find(&self, user_id: &str) -> (r: Option<usize>)
        ensures
            r matches Some(j) ==> j < self.records@.len() && self.records@[j as int].user_id@
                == user_id@ && forall|k: int| 0 <= k < j ==> #[trigger] self.records@[k].user_id@ != user_id@,
            r is None <==> !has_user(self.records@, user_id@),
    {
        let mut j: usize = 0;
        while j < self.records.len()
            invariant
                j <= self.records@.len(),
                forall|k: int| 0 <= k < j ==> #[trigger] self.records@[k].user_id@ != user_id@,
            decreases self.records@.len() - j,
        {
            if str_eq(self.records[j].user_id.as_str(), user_id) {
                return Some(j);
            }
            j = j + 1;
        }
        None
    }

    /// The settings of `user_id`, created with every switch on (stamped
    /// `now`) when the user has none yet; the flag says whether this call
    /// created them.
    pub fn get_or_create(&mut self, user_id: &str, now: i64) -> (r: (NotificationSettings, bool))
        requires
            old(self).wf(),
        ensures
            final(self).wf(),
            !r.1 ==> forall|j: int|
                0 <= j < old(self).records@.len() && #[trigger] old(self).records@[j].user_id@
                    == user_id@ ==> old(self).records@[j] == r.0,
            lookup_step(old(self).records@, final(self).records@, user_id@),
            r.1 == !has_user(old(self).records@, user_id@),
            r.1 ==> is_default_for(r.0, user_id@, now) && final(self).records@ == old(self).records@.push(r.0),
            !r.1 ==> exists|j: int| 0 <= j < old(self).records@.len() && #[trigger] old(self).records@[j] == r.0 && r.0.user_id@ == user_id@,
    {
        match self.find(user_id) {
            Some(j) => {
                proof {
                    assert forall|k: int|
                        0 <= k < self.records@.len() && #[trigger] self.records@[k].user_id@
                            == user_id@ implies k == j by {
                        if k < j {
                            assert(self.records@[k].user_id@ != self.records@[j as int].user_id@);
                        } else if k > j {
                            assert(self.records@[j as int].user_id@ != self.records@[k].user_id@);
                        }
                    }
                }
                (self.records[j].duplicate(), false)
            },
            None => {
                let d = default_settings(user_id, now);
                proof {
                    lemma_push_keeps_one(self.records@, d);
                }
                self.records.push(d.duplicate());
                proof {
                    assert(self.records@.drop_last() =~= old(self).records@);
                }
                (d, true)
            },
        }
    }

    /// Settings for `user_id`: the record already in this store; failing
    /// that, `stored` (the service's record) unchanged; failing that, the
    /// default record stamped `now`, flagged to be written to the service.
    pub fn adopt(&mut self, user_id: &str, stored: Option<NotificationSettings>, now: i64) -> (r: (
        NotificationSettings,
        bool,
    ))
        requires
            old(self).wf(),
            stored matches Some(s) ==> s.user_id@ == user_id@,
        ensures
            final(self).wf(),
            has_user(old(self).records@, user_id@) ==> !r.1 && final(self).records@ == old(self).records@
                && forall|j: int|
                0 <= j < old(self).records@.len() && #[trigger] old(self).records@[j].user_id@
                    == user_id@ ==> old(self).records@[j] == r.0,
            !has_user(old(self).records@, user_id@) && stored is Some ==> !r.1 && Some(r.0) == stored
                && final(self).records@ == old(self).records@.push(r.0),
            !has_user(old(self).records@, user_id@) && stored is None ==> r.1 && is_default_for(
                r.0,
                user_id@,
                now,
            ) && final(self).records@ == old(self).records@.push(r.0),
    {
        if self.find(user_id).is_some() {
            return self.get_or_create(user_id, now);
        }
        match stored {
            Some(s) => {
                proof {
                    lemma_push_keeps_one(self.records@, s);
                }
                self.records.push(s.duplicate());
                (s, false)
            },
            None => self.get_or_create(user_id, now),
        }
    }

    /// Writes a full settings record for `settings.user_id` (replacing the
    /// user's record, or creating it if absent), stamped `now`, and gives
    /// back the stored version.
    pub fn put(&mut self, settings: NotificationSettings, now: i64) -> (r: NotificationSettings)
        requires
            old(self).wf(),
        ensures
            final(self).wf(),
            r == (NotificationSettings { updated_at: now, ..settings }),
            has_user(old(self).records@, settings.user_id@) ==> exists|j: int|
                0 <= j < old(self).records@.len() && #[trigger] old(self).records@[j].user_id@
                    == settings.user_id@ && final(self).records@ == old(self).records@.update(j, r),
            !has_user(old(self).records@, settings.user_id@) ==> final(self).records@ == old(
                self,
            ).records@.push(r),
    {
        let stored = NotificationSettings { updated_at: now, ..settings };
        match self.find(stored.user_id.as_str()) {
            Some(j) => {
                proof {
                    lemma_update_keeps_one(self.records@, j as int, stored);
                }
                let copy = stored.duplicate();
                let _replaced = self.records.remove(j);
                self.records.insert(j, copy);
                proof {
                    assert(self.records@ =~= old(self).records@.update(j as int, stored));
                }
                stored
            },
            None => {
                proof {
                    lemma_push_keeps_one(self.records@, stored);
                }
                self.records.push(stored.duplicate());
                stored
            },
        }
    }

    /// Switches one category of `user_id` on or off: a read-modify-write of
    /// that single switch on the user's record (the default record when the
    /// user has none), stamped `now`. An unknown setting word is refused
    /// before anything is read or written.
    pub fn toggle(&mut self, user_id: &str, word: &str, enabled: bool, now: i64) -> (r: Result<
        NotificationSettings,
        AppError,
    >)
        requires
            old(self).wf(),
        ensures
            final(self).wf(),
            setting_of(word@) is None <==> r is Err,
            r matches Err(e) ==> (e matches AppError::Validation(m) && m@ == "Invalid notification type"@)
                && final(self).records@ == old(self).records@,
            r matches Ok(s) ==> {
                let c = setting_of(word@).unwrap();
                &&& s.user_id@ == user_id@
                &&& switch_of(s, c) == enabled
                &&& s.updated_at == now
                &&& has_user(old(self).records@, user_id@) ==> exists|j: int|
                    0 <= j < old(self).records@.len() && #[trigger] old(self).records@[j].user_id@
                        == user_id@ && (forall|k: int| 0 <= k < j ==> #[trigger] old(self).records@[k].user_id@ != user_id@)
                        && (forall|o: Category| o != c ==> switch_of(s, o) == switch_of(old(self).records@[j], o))
                        && s.created_at == old(self).records@[j].created_at
                        && final(self).records@ == old(self).records@.update(j, s)
                &&& !has_user(old(self).records@, user_id@) ==> (forall|o: Category| switch_of(s, o) || o == c)
                    && s.created_at == now
                    && final(self).records@ == old(self).records@.push(s)
            },
    {
        let c = match setting_category(word) {
            Some(c) => c,
            None => {
                return Err(AppError::validation("Invalid notification type"));
            },
        };
        match self.find(user_id) {
            Some(j) => {
                let mut s = self.records[j].duplicate();
                s.set_enabled(c, enabled, now);
                proof {
                    lemma_update_keeps_one(self.records@, j as int, s);
                }
                let copy = s.duplicate();
                let _replaced = self.records.remove(j);
                self.records.insert(j, copy);
                proof {
                    assert(self.records@ =~= old(self).records@.update(j as int, s));
                }
                Ok(s)
            },
            None => {
                let mut s = default_settings(user_id, now);
                s.set_enabled(c, enabled, now);
                proof {
                    lemma_push_keeps_one(self.records@, s);
                }
                self.records.push(s.duplicate());
                Ok(s)
            },
        }
    }
}

/// The filter gate: looks up (or creates) the user's settings and screens
/// `candidate` with them.
pub fn gate(store: &mut SettingsStore, candidate: Notification, now: i64) -> (r: Option<Notification>)
    requires
        old(store).wf(),
    ensures
        final(store).wf(),
        lookup_step(old(store).records@, final(store).records@, candidate.user_id@),
        !has_user(old(store).records@, candidate.user_id@) ==> (r is Some <==> receivable_category(setting_word_of_type(candidate.notification_type@)) is Some),
        has_user(old(store).records@, candidate.user_id@) ==> exists|j: int| 0 <= j < old(store).records@.len() && #[trigger] old(store).records@[j].user_id@ == candidate.user_id@ && (r is Some <==> receives(old(store).records@[j], candidate.notification_type@)),
        r matches Some(n) ==> stored_form(n, candidate),
{
    let (settings, _created) = store.get_or_create(candidate.user_id.as_str(), now);
    screen_notification(&settings, candidate)
}

proof fn lemma_count_zero(recs: Seq<NotificationSettings>, u: Seq<char>)
    requires
        count_for(recs, u) == 0,
    ensures
        !has_user(recs, u),
    decreases recs.len(),
{
    if recs.len() > 0 {
        lemma_count_zero(recs.drop_last(), u);
        assert forall|j: int| 0 <= j < recs.len() implies #[trigger] recs[j].user_id@ != u by {
            if j < recs.len() - 1 {
                assert(recs.drop_last()[j] == recs[j]);
            }
        }
    }
}

/// Two look-ups for a user who has no settings yet, one after the other (as
/// the guard orders concurrent ones), leave exactly one record for that user.
pub proof fn lemma_one_default_record(
    s0: Seq<NotificationSettings>,
    s1: Seq<NotificationSettings>,
    s2: Seq<NotificationSettings>,
    u: Seq<char>,
)
    requires
        count_for(s0, u) == 0,
        lookup_step(s0, s1, u),
        lookup_step(s1, s2, u),
    ensures
        count_for(s2, u) == 1,
{
    lemma_count_zero(s0, u);
    assert(s1.drop_last() == s0);
    assert(count_for(s1, u) == 1);
    assert(s1[s1.len() - 1].user_id@ == u);
    assert(has_user(s1, u));
}

/// Screening lets a notification through exactly when the master switch and
/// its category's switch are both on, and what it lets through is unread.
pub proof fn lemma_screen_follows_switches(s: NotificationSettings, c: Notification, r: Option<Notification>, cat: Category)
    requires
        r is Some <==> receives(s, c.notification_type@),
        r matches Some(n) ==> stored_form(n, c),
        receivable_category(setting_word_of_type(c.notification_type@)) == Some(cat),
    ensures
        !switch_of(s, cat) ==> r is None,
        !s.push_enabled ==> r is None,
        s.push_enabled && switch_of(s, cat) ==> (r matches Some(n) && n.read_at is None && n.id == c.id),
{
}

} // verus!
