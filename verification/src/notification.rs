//! The notification entity: severity levels, display colors, and the alert
//! itself with its builder, close-hook chain and component interpreter.

use vstd::prelude::*;

use crate::component::{
    component_id, ActionView, ComponentView, NotificationAction, NotificationComponent,
};
use crate::grouping::components_view;

verus! {

/// Severity of an alert; decides its display color.
#[derive(Clone, Copy, PartialEq, Eq, Structural, Debug)]
pub enum NotificationLevel {
    Info,
    Success,
    Error,
}

/// A display color, one byte per channel.
#[derive(Clone, Copy, PartialEq, Eq, Structural, Debug)]
pub struct Rgb {
    pub red: u8,
    pub green: u8,
    pub blue: u8,
}

/// The fixed accent color of `Success` alerts.
pub open spec fn success_green() -> Rgb {
    Rgb { red: 0, green: 173, blue: 12 }
}

/// The fixed accent color of `Info` alerts.
pub open spec fn info_blue() -> Rgb {
    Rgb { red: 0, green: 105, blue: 255 }
}

/// The fixed accent color of `Error` alerts.
pub open spec fn error_red() -> Rgb {
    Rgb { red: 230, green: 23, blue: 23 }
}

impl NotificationLevel {
    /// The display color each severity level maps to.
    pub fn to_color(&self) -> (r: Rgb)
        ensures
            self is Info ==> r == info_blue(),
            self is Success ==> r == success_green(),
            self is Error ==> r == error_red(),
    {
        match self {
            NotificationLevel::Info => Rgb { red: 0, green: 105, blue: 255 },
            NotificationLevel::Success => Rgb { red: 0, green: 173, blue: 12 },
            NotificationLevel::Error => Rgb { red: 230, green: 23, blue: 23 },
        }
    }
}

/// Relies on uuid's `Uuid::new_v4` and its hyphenated `Display` form: a
/// fresh random identifier rendered as 36 characters, with the version
/// digit `4` at index 14. The value itself is random and gets no name.
#[verifier::external_body]
fn fresh_id() -> (r: String)
    ensures
        r@.len() == 36,
        r@[14] == '4',
{
    uuid::Uuid::new_v4().to_string()
}

/// Relies on instant's `now`: the current time in milliseconds (since the
/// Unix epoch on native targets, since the page's time origin in a
/// browser), truncated to an integer. The value depends on the ambient
/// clock, so nothing is promised of it; instant requires the clock not to
/// stand before its epoch.
#[verifier::external_body]
pub(crate) fn now_millis() -> u64 {
    instant::now() as u64
}

/// Compares two string slices by their character content.
pub(crate) fn str_eq(a: &str, b: &str) -> (r: bool)
    ensures
        r == (a@ == b@),
{
    let left = a.to_owned();
    let right = b.to_owned();
    left == right
}

/// Whether an alert created at `created_at` and displayed for `duration`
/// milliseconds has outlived its display time at instant `now`. The bound
/// is strict: at exactly `created_at + duration` the alert still stands.
pub open spec fn expired_at(created_at: int, duration: int, now: int) -> bool {
    now - created_at > duration
}

/// At any instant strictly before the end of the display window the alert
/// is live, and at any instant strictly after it the alert is expired.
pub proof fn lemma_expiry_boundary(created_at: int, duration: int, eps: int)
    requires
        eps > 0,
    ensures
        !expired_at(created_at, duration, created_at + duration - eps),
        expired_at(created_at, duration, created_at + duration + eps),
{
}

/// A time-bounded, user-facing alert: static identity and creation time,
/// mutable text and severity, an ordered component list, and a chain of
/// close hooks.
#[derive(Debug)]
pub struct Notification {
    id: String,
    title: String,
    message: String,
    level: NotificationLevel,
    components: Vec<NotificationComponent>,
    created_at: u64,
    duration: u64,
    close_hooks: Vec<u64>,
}

/// Mathematical model of a [`Notification`]. Times are in milliseconds
/// on the ambient clock; close hooks are listed oldest first.
#[verifier::ext_equal]
pub struct NotificationView {
    pub id: Seq<char>,
    pub title: Seq<char>,
    pub message: Seq<char>,
    pub level: NotificationLevel,
    pub components: Seq<ComponentView>,
    pub created_at: u64,
    pub duration: u64,
    pub close_hooks: Seq<u64>,
}

impl View for Notification {
    type V = NotificationView;

    closed spec fn view(&self) -> NotificationView {
        NotificationView {
            id: self.id@,
            title: self.title@,
            message: self.message@,
            level: self.level,
            components: components_view(self.components@),
            created_at: self.created_at,
            duration: self.duration,
            close_hooks: self.close_hooks@,
        }
    }
}

/// Copies a component list, keeping each component's model.
fn clone_components(components: &Vec<NotificationComponent>) -> (r: Vec<NotificationComponent>)
    ensures
        components_view(r@) == components_view(components@),
{
    let mut out: Vec<NotificationComponent> = Vec::new();
    let mut i: usize = 0;
    while i < components.len()
        invariant
            i <= components@.len(),
            out@.len() == i,
            forall|j: int| 0 <= j < i ==> (#[trigger] out@[j])@ == components@[j]@,
        decreases components@.len() - i,
    {
        out.push(components[i].clone());
        i = i + 1;
    }
    proof {
        assert(components_view(out@) =~= components_view(components@));
    }
    out
}

/// Copies a hook chain.
fn clone_hooks(hooks: &Vec<u64>) -> (r: Vec<u64>)
    ensures
        r@ == hooks@,
{
    let mut out: Vec<u64> = Vec::new();
    let mut i: usize = 0;
    while i < hooks.len()
        invariant
            i <= hooks@.len(),
            out@ == hooks@.take(i as int),
        decreases hooks@.len() - i,
    {
        out.push(hooks[i]);
        proof {
            assert(out@ =~= hooks@.take(i as int + 1));
        }
        i = i + 1;
    }
    proof {
        assert(hooks@.take(hooks@.len() as int) =~= hooks@);
    }
    out
}

impl Clone for Notification {
    fn clone(&self) -> (res: Self)
        ensures
            res@ == self@,
    {
        let res = Notification {
            id: self.id.clone(),
            title: self.title.clone(),
            message: self.message.clone(),
            level: self.level,
            components: clone_components(&self.components),
            created_at: self.created_at,
            duration: self.duration,
            close_hooks: clone_hooks(&self.close_hooks),
        };
        proof {
            assert(res@ =~= self@);
        }
        res
    }
}

impl Notification {
    pub fn id(&self) -> (r: &str)
        ensures
            r@ == self@.id,
    {
        self.id.as_str()
    }

    pub fn components(&self) -> (r: &Vec<NotificationComponent>)
        ensures
            components_view(r@) == self@.components,
    {
        &self.components
    }

    pub fn title(&self) -> (r: &str)
        ensures
            r@ == self@.title,
    {
        self.title.as_str()
    }

    pub fn message(&self) -> (r: &str)
        ensures
            r@ == self@.message,
    {
        self.message.as_str()
    }

    pub fn level(&self) -> (r: NotificationLevel)
        ensures
            r == self@.level,
    {
        self.level
    }

    pub fn created_at(&self) -> (r: u64)
        ensures
            r == self@.created_at,
    {
        self.created_at
    }

    pub fn duration(&self) -> (r: u64)
        ensures
            r == self@.duration,
    {
        self.duration
    }

    pub fn set_title(&mut self, title: String)
        ensures
            final(self)@ == (NotificationView { title: title@, ..old(self)@ }),
    {
        self.title = title;
    }

    pub fn set_message(&mut self, message: String)
        ensures
            final(self)@ == (NotificationView { message: message@, ..old(self)@ }),
    {
        self.message = message;
    }

    pub fn set_level(&mut self, level: NotificationLevel)
        ensures
            final(self)@ == (NotificationView { level, ..old(self)@ }),
    {
        self.level = level;
    }

    /// Registers one more close hook. Hooks compose: all previously
    /// registered hooks keep firing, and the newest fires first.
    pub fn hook_close(&mut self, hook: u64)
        ensures
            final(self)@ == (NotificationView {
                close_hooks: old(self)@.close_hooks.push(hook),
                ..old(self)@
            }),
    {
        self.close_hooks.push(hook);
    }

    /// Dismisses the alert: hands back the registered close hooks for the
    /// caller to run, most recently registered first.
    pub fn close(&self) -> (hooks: Vec<u64>)
        ensures
            hooks@ == self@.close_hooks.reverse(),
    {
        let mut hooks: Vec<u64> = Vec::new();
        let mut remaining = self.close_hooks.len();
        while remaining > 0
            invariant
                remaining <= self.close_hooks@.len(),
                hooks@.len() == self.close_hooks@.len() - remaining,
                forall|j: int|
                    0 <= j < hooks@.len() ==> hooks@[j] == self.close_hooks@.reverse()[j],
            decreases remaining,
        {
            remaining = remaining - 1;
            hooks.push(self.close_hooks[remaining]);
        }
        proof {
            assert(hooks@ =~= self.close_hooks@.reverse());
        }
        hooks
    }

    /// Whether the alert's display time has elapsed at instant `now`.
    pub fn is_expired_at(&self, now: u64) -> (r: bool)
        ensures
            r == expired_at(self@.created_at as int, self@.duration as int, now as int),
    {
        now >= self.created_at && now - self.created_at > self.duration
    }

    /// Whether the alert's display time has elapsed at the instant the
    /// ambient clock reports when this is called. Nothing can be promised
    /// of the clock; [`Notification::is_expired_at`] carries the contract.
    pub fn is_expired(&self) -> bool {
        let now = now_millis();
        self.is_expired_at(now)
    }

    pub fn builder() -> (r: NotificationBuilder)
        ensures
            r.components@ == Seq::<NotificationComponent>::empty(),
            r.title is None,
            r.message is None,
            r.level == NotificationLevel::Info,
            r.duration == 5000,
    {
        NotificationBuilder {
            components: Vec::new(),
            title: None,
            message: None,
            level: NotificationLevel::Info,
            duration: 5000,
        }
    }
}

/// Assembles a [`Notification`]: `title` and `message` are expected, the
/// severity defaults to `Info`, the display time to five seconds, and the
/// component list to empty. Identity and creation time are never chosen by
/// the caller: they are generated when `build` runs.
pub struct NotificationBuilder {
    pub components: Vec<NotificationComponent>,
    pub title: Option<String>,
    pub message: Option<String>,
    pub level: NotificationLevel,
    pub duration: u64,
}

impl NotificationBuilder {
    pub fn title(self, title: &str) -> (r: Self)
        ensures
            r.title matches Some(t) && t@ == title@,
            r.components == self.components && r.message == self.message && r.level == self.level
                && r.duration == self.duration,
    {
        NotificationBuilder { title: Some(title.to_owned()), ..self }
    }

    pub fn message(self, message: &str) -> (r: Self)
        ensures
            r.message matches Some(m) && m@ == message@,
            r.components == self.components && r.title == self.title && r.level == self.level
                && r.duration == self.duration,
    {
        NotificationBuilder { message: Some(message.to_owned()), ..self }
    }

    pub fn level(self, level: NotificationLevel) -> (r: Self)
        ensures
            r == (NotificationBuilder { level, ..self }),
    {
        NotificationBuilder { level, ..self }
    }

    /// Sets the display time, in milliseconds.
    pub fn duration(self, duration: u64) -> (r: Self)
        ensures
            r == (NotificationBuilder { duration, ..self }),
    {
        NotificationBuilder { duration, ..self }
    }

    pub fn add_redirect_button(self, button: crate::component::RedirectButton) -> (r: Self)
        ensures
            components_view(r.components@) == components_view(self.components@).push(
                ComponentView::RedirectButton(button@),
            ),
            r.title == self.title && r.message == self.message && r.level == self.level
                && r.duration == self.duration,
    {
        let mut components = self.components;
        components.push(NotificationComponent::from(button));
        proof {
            assert(components_view(components@) =~= components_view(self.components@).push(
                ComponentView::RedirectButton(button@),
            ));
        }
        NotificationBuilder { components, ..self }
    }

    pub fn add_action_button(self, button: crate::component::ActionButton) -> (r: Self)
        ensures
            components_view(r.components@) == components_view(self.components@).push(
                ComponentView::ActionButton(button@),
            ),
            r.title == self.title && r.message == self.message && r.level == self.level
                && r.duration == self.duration,
    {
        let mut components = self.components;
        components.push(NotificationComponent::from(button));
        proof {
            assert(components_view(components@) =~= components_view(self.components@).push(
                ComponentView::ActionButton(button@),
            ));
        }
        NotificationBuilder { components, ..self }
    }

    pub fn add_dropdown(self, dropdown: crate::component::Dropdown) -> (r: Self)
        ensures
            components_view(r.components@) == components_view(self.components@).push(
                ComponentView::Dropdown(dropdown@),
            ),
            r.title == self.title && r.message == self.message && r.level == self.level
                && r.duration == self.duration,
    {
        let mut components = self.components;
        components.push(NotificationComponent::from(dropdown));
        proof {
            assert(components_view(components@) =~= components_view(self.components@).push(
                ComponentView::Dropdown(dropdown@),
            ));
        }
        NotificationBuilder { components, ..self }
    }

    /// Finishes the alert: a fresh identity is generated and the creation
    /// time is captured from the ambient clock. A missing `title` or
    /// `message` is taken as empty; the original assembly protocol does not
    /// let that happen.
    pub fn build(self) -> (r: Notification)
        ensures
            r@.id.len() == 36,
            r@.id[14] == '4',
            self.title matches Some(t) ==> r@.title == t@,
            self.title is None ==> r@.title == Seq::<char>::empty(),
            self.message matches Some(m) ==> r@.message == m@,
            self.message is None ==> r@.message == Seq::<char>::empty(),
            r@.level == self.level,
            r@.components == components_view(self.components@),
            r@.duration == self.duration,
            r@.close_hooks == Seq::<u64>::empty(),
    {
        Notification {
            id: fresh_id(),
            title: match self.title {
                Some(t) => t,
                None => String::new(),
            },
            message: match self.message {
                Some(m) => m,
                None => String::new(),
            },
            level: self.level,
            components: self.components,
            created_at: now_millis(),
            duration: self.duration,
            close_hooks: Vec::new(),
        }
    }
}

/// The index of the first component whose id equals `id`, if any. An empty
/// id never matches: such components are unaddressable.
pub open spec fn lookup_spec(components: Seq<ComponentView>, id: Seq<char>) -> Option<int>
    decreases components.len(),
{
    if id.len() == 0 || components.len() == 0 {
        None
    } else if component_id(components[0]) == id {
        Some(0)
    } else {
        match lookup_spec(components.drop_first(), id) {
            None => None,
            Some(k) => Some(k + 1),
        }
    }
}

/// A found index is in range, matches, and nothing before it matches; a
/// miss means the id was empty or matches nowhere.
pub proof fn lemma_lookup_spec(components: Seq<ComponentView>, id: Seq<char>)
    ensures
        lookup_spec(components, id) is None ==> id.len() == 0 || forall|j: int|
            0 <= j < components.len() ==> component_id(#[trigger] components[j]) != id,
        lookup_spec(components, id) matches Some(k) ==> 0 <= k < components.len() && id.len() > 0
            && component_id(components[k]) == id && forall|j: int|
            0 <= j < k ==> component_id(#[trigger] components[j]) != id,
    decreases components.len(),
{
    if id.len() == 0 || components.len() == 0 {
    } else if component_id(components[0]) == id {
    } else {
        lemma_lookup_spec(components.drop_first(), id);
        assert(forall|j: int|
            1 <= j < components.len() ==> #[trigger] components[j] == components.drop_first()[j
                - 1]);
    }
}

/// The first match decides the lookup: if `k` matches and nothing before
/// it does, the lookup lands exactly on `k`.
pub proof fn lemma_lookup_first_match(components: Seq<ComponentView>, id: Seq<char>, k: int)
    requires
        id.len() > 0,
        0 <= k < components.len(),
        component_id(components[k]) == id,
        forall|j: int| 0 <= j < k ==> component_id(#[trigger] components[j]) != id,
    ensures
        lookup_spec(components, id) == Some(k),
    decreases components.len(),
{
    if k == 0 {
    } else {
        assert(component_id(components[0]) != id);
        assert(forall|j: int|
            0 <= j < k - 1 ==> #[trigger] components.drop_first()[j] == components[j + 1]);
        lemma_lookup_first_match(components.drop_first(), id, k - 1);
    }
}

/// A lookup over components none of which match comes back empty.
pub proof fn lemma_lookup_no_match(components: Seq<ComponentView>, id: Seq<char>)
    requires
        forall|j: int| 0 <= j < components.len() ==> component_id(#[trigger] components[j]) != id,
    ensures
        lookup_spec(components, id) is None,
    decreases components.len(),
{
    if components.len() > 0 {
        assert(forall|j: int|
            0 <= j < components.len() - 1 ==> #[trigger] components.drop_first()[j] == components[j
                + 1]);
        lemma_lookup_no_match(components.drop_first(), id);
    }
}

/// Finds the first index with the given component id in a component list.
fn find_component(components: &Vec<NotificationComponent>, id: &str) -> (r: Option<usize>)
    ensures
        match r {
            Some(k) => lookup_spec(components_view(components@), id@) == Some(k as int),
            None => lookup_spec(components_view(components@), id@) is None,
        },
{
    let ghost cv = components_view(components@);
    if id.is_empty() {
        return None;
    }
    let mut i: usize = 0;
    while i < components.len()
        invariant
            id@.len() > 0,
            i <= components@.len(),
            cv == components_view(components@),
            forall|j: int| 0 <= j < i ==> component_id(#[trigger] cv[j]) != id@,
        decreases components@.len() - i,
    {
        if str_eq(components[i].id(), id) {
            proof {
                lemma_lookup_first_match(cv, id@, i as int);
            }
            return Some(i);
        }
        i = i + 1;
    }
    proof {
        lemma_lookup_no_match(cv, id@);
    }
    None
}

/// The component with `enabled` replaced; everything else stands.
pub open spec fn with_enabled(c: ComponentView, enabled: bool) -> ComponentView {
    match c {
        ComponentView::RedirectButton(b) => ComponentView::RedirectButton(
            crate::component::RedirectButtonView { enabled, ..b },
        ),
        ComponentView::ActionButton(b) => ComponentView::ActionButton(
            crate::component::ActionButtonView { enabled, ..b },
        ),
        ComponentView::Dropdown(d) => ComponentView::Dropdown(
            crate::component::DropdownView { enabled, ..d },
        ),
    }
}

/// What one action, fired from the component at index `origin`, does to the
/// notification. Dismissal and application-interpreted effects leave the
/// notification itself untouched; their work happens at the caller.
pub open spec fn apply_action(n: NotificationView, origin: int, action: ActionView)
    -> NotificationView {
    match action {
        ActionView::Noop => n,
        ActionView::Close => n,
        ActionView::External(_) => n,
        ActionView::SetSelfEnabled(v) => NotificationView {
            components: n.components.update(origin, with_enabled(n.components[origin], v)),
            ..n
        },
        ActionView::SetTitle(t) => NotificationView { title: t, ..n },
        ActionView::SetMessage(m) => NotificationView { message: m, ..n },
        ActionView::SetLevel(l) => NotificationView { level: l, ..n },
    }
}

/// The close hooks an action hands back to the caller: the whole chain,
/// newest first, when the action dismisses the alert; none otherwise.
pub open spec fn action_hooks(n: NotificationView, action: ActionView) -> Seq<u64> {
    if action is Close {
        n.close_hooks.reverse()
    } else {
        Seq::empty()
    }
}

/// Disabling a component is idempotent: firing an action that sets
/// `enabled = false` on its own component a second time changes nothing
/// beyond what the first firing already did.
pub proof fn lemma_disable_self_idempotent(n: NotificationView, origin: int)
    requires
        0 <= origin < n.components.len(),
    ensures
        apply_action(
            apply_action(n, origin, ActionView::SetSelfEnabled(false)),
            origin,
            ActionView::SetSelfEnabled(false),
        ) == apply_action(n, origin, ActionView::SetSelfEnabled(false)),
{
    let once = apply_action(n, origin, ActionView::SetSelfEnabled(false));
    let twice = apply_action(once, origin, ActionView::SetSelfEnabled(false));
    assert(twice.components =~= once.components);
    assert(twice =~= once);
}

/// Close hooks fire newest first: after registering `first` and then
/// `second`, dismissal runs `second`, then `first`, then the older chain.
pub proof fn lemma_close_hook_order(n: NotificationView, first: u64, second: u64)
    ensures
        n.close_hooks.push(first).push(second).reverse() == seq![second, first]
            + n.close_hooks.reverse(),
{
    assert(n.close_hooks.push(first).push(second).reverse() =~= seq![second, first]
        + n.close_hooks.reverse());
}

impl Notification {
    /// Looks up a component by id: the first component, in insertion
    /// order, whose id matches. Components with an empty id are never
    /// found.
    pub fn get_component(&self, id: &str) -> (r: Option<&NotificationComponent>)
        ensures
            match r {
                Some(c) => lookup_spec(self@.components, id@) matches Some(k) && c@
                    == self@.components[k],
                None => lookup_spec(self@.components, id@) is None,
            },
    {
        let found = find_component(&self.components, id);
        proof {
            lemma_lookup_spec(self@.components, id@);
        }
        match found {
            Some(k) => Some(&self.components[k]),
            None => None,
        }
    }

    /// Replaces the first component whose id matches, and reports whether
    /// one was found. Replacing by an id nothing carries is a no-op.
    pub fn replace_component(&mut self, id: &str, component: NotificationComponent) -> (r: bool)
        ensures
            match lookup_spec(old(self)@.components, id@) {
                Some(k) => r == true && final(self)@ == (NotificationView {
                    components: old(self)@.components.update(k, component@),
                    ..old(self)@
                }),
                None => r == false && final(self)@ == old(self)@,
            },
    {
        let found = find_component(&self.components, id);
        proof {
            lemma_lookup_spec(self@.components, id@);
        }
        match found {
            Some(k) => {
                self.components[k] = component;
                proof {
                    assert(self@.components =~= old(self)@.components.update(
                        lookup_spec(old(self)@.components, id@).unwrap(),
                        component@,
                    ));
                    assert(self@ =~= (NotificationView {
                        components: old(self)@.components.update(
                            lookup_spec(old(self)@.components, id@).unwrap(),
                            component@,
                        ),
                        ..old(self)@
                    }));
                }
                true
            },
            None => false,
        }
    }

    /// Fires the action button with the given id, if there is one:
    /// interprets its action against this notification and hands back any
    /// close hooks the caller now has to run, newest first. Ids that are
    /// missing, empty, or name a component of another sort do nothing.
    pub fn invoke_action_button(&mut self, id: &str) -> (hooks: Vec<u64>)
        ensures
            match lookup_spec(old(self)@.components, id@) {
                Some(k) => match old(self)@.components[k] {
                    ComponentView::ActionButton(b) => final(self)@ == apply_action(
                        old(self)@,
                        k,
                        b.action,
                    ) && hooks@ == action_hooks(old(self)@, b.action),
                    _ => final(self)@ == old(self)@ && hooks@ == Seq::<u64>::empty(),
                },
                None => final(self)@ == old(self)@ && hooks@ == Seq::<u64>::empty(),
            },
    {
        let found = find_component(&self.components, id);
        proof {
            lemma_lookup_spec(self@.components, id@);
        }
        match found {
            Some(k) => {
                let action = match &self.components[k] {
                    NotificationComponent::ActionButton(b) => b.action().clone(),
                    _ => {
                        return Vec::new();
                    },
                };
                self.run_action(k, action)
            },
            None => Vec::new(),
        }
    }

    /// Changes the dropdown with the given id: stores the newly selected
    /// value, then interprets the dropdown's change action, and hands back
    /// any close hooks the caller now has to run. Ids that are missing,
    /// empty, or name a component of another sort do nothing.
    pub fn select_dropdown_value(&mut self, id: &str, value: &str) -> (hooks: Vec<u64>)
        ensures
            match lookup_spec(old(self)@.components, id@) {
                Some(k) => match old(self)@.components[k] {
                    ComponentView::Dropdown(d) => final(self)@ == apply_action(
                        (NotificationView {
                            components: old(self)@.components.update(
                                k,
                                ComponentView::Dropdown(
                                    crate::component::DropdownView { current_value: value@, ..d },
                                ),
                            ),
                            ..old(self)@
                        }),
                        k,
                        d.on_change,
                    ) && hooks@ == action_hooks(old(self)@, d.on_change),
                    _ => final(self)@ == old(self)@ && hooks@ == Seq::<u64>::empty(),
                },
                None => final(self)@ == old(self)@ && hooks@ == Seq::<u64>::empty(),
            },
    {
        let found = find_component(&self.components, id);
        proof {
            lemma_lookup_spec(self@.components, id@);
        }
        match found {
            Some(k) => {
                let (action, mut selected) = match &self.components[k] {
                    NotificationComponent::Dropdown(d) => (d.on_change().clone(), d.clone()),
                    _ => {
                        return Vec::new();
                    },
                };
                selected.set_current_value(value.to_owned());
                self.components[k] = NotificationComponent::Dropdown(selected);
                proof {
                    assert(self@.components =~= old(self)@.components.update(
                        k as int,
                        with_current(old(self)@.components[k as int], value@),
                    ));
                }
                self.run_action(k, action)
            },
            None => Vec::new(),
        }
    }

    /// Interprets one action fired from the component at index `origin`.
    fn run_action(&mut self, origin: usize, action: NotificationAction) -> (hooks: Vec<u64>)
        requires
            origin < old(self)@.components.len(),
        ensures
            final(self)@ == apply_action(old(self)@, origin as int, action@),
            hooks@ == action_hooks(old(self)@, action@),
    {
        match action {
            NotificationAction::Noop => Vec::new(),
            NotificationAction::External(_) => Vec::new(),
            NotificationAction::Close => self.close(),
            NotificationAction::SetTitle(t) => {
                self.set_title(t);
                Vec::new()
            },
            NotificationAction::SetMessage(m) => {
                self.set_message(m);
                Vec::new()
            },
            NotificationAction::SetLevel(l) => {
                self.set_level(l);
                Vec::new()
            },
            NotificationAction::SetSelfEnabled(v) => {
                let updated = set_enabled_component(self.components[origin].clone(), v);
                self.components[origin] = updated;
                proof {
                    assert(self@.components =~= old(self)@.components.update(
                        origin as int,
                        with_enabled(old(self)@.components[origin as int], v),
                    ));
                    assert(self@ =~= apply_action(
                        old(self)@,
                        origin as int,
                        ActionView::SetSelfEnabled(v),
                    ));
                }
                Vec::new()
            },
        }
    }
}

/// A dropdown's view with `current_value` replaced; other components are
/// left as they are.
pub open spec fn with_current(c: ComponentView, value: Seq<char>) -> ComponentView {
    match c {
        ComponentView::Dropdown(d) => ComponentView::Dropdown(
            crate::component::DropdownView { current_value: value, ..d },
        ),
        _ => c,
    }
}

/// Sets the `enabled` flag of whichever sort of component this is.
fn set_enabled_component(c: NotificationComponent, enabled: bool) -> (r: NotificationComponent)
    ensures
        r@ == with_enabled(c@, enabled),
{
    match c {
        NotificationComponent::RedirectButton(mut b) => {
            b.set_enabled(enabled);
            NotificationComponent::RedirectButton(b)
        },
        NotificationComponent::ActionButton(mut b) => {
            b.set_enabled(enabled);
            NotificationComponent::ActionButton(b)
        },
        NotificationComponent::Dropdown(mut d) => {
            d.set_enabled(enabled);
            NotificationComponent::Dropdown(d)
        },
    }
}

} // verus!
