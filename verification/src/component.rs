//! Interactive elements that can be attached to a notification: redirect
//! buttons, action buttons and dropdowns.
//!
//! Callbacks are modelled as data: a [`NotificationAction`] value describes
//! what an action button (or a dropdown's change handler) does to the owning
//! notification, and the notification interprets that value when the
//! component is invoked. This keeps re-entrant mutation out of the picture:
//! the component never holds a live handle to its owner.

use vstd::prelude::*;

use crate::notification::NotificationLevel;

verus! {

/// Presentation hint of a component; purely visual priority.
#[derive(Clone, Copy, PartialEq, Eq, Structural, Debug)]
pub enum NotificationComponentKind {
    Primary,
    Secondary,
}

impl Default for NotificationComponentKind {
    fn default() -> (r: Self)
        ensures
            r == NotificationComponentKind::Primary,
    {
        NotificationComponentKind::Primary
    }
}

/// What invoking a component does to the notification that owns it.
///
/// The original user interface attached closures over a shared handle to the
/// owning notification; here the same effects are first-class values that the
/// notification interprets after the triggering borrow has ended.
#[derive(Debug)]
pub enum NotificationAction {
    /// Do nothing observable.
    Noop,
    /// Dismiss the owning notification: its close hooks are handed back to
    /// the caller to run, most recently registered first.
    Close,
    /// Set the `enabled` flag of the component the action belongs to.
    SetSelfEnabled(bool),
    /// Replace the owning notification's title.
    SetTitle(String),
    /// Replace the owning notification's message.
    SetMessage(String),
    /// Replace the owning notification's severity level.
    SetLevel(NotificationLevel),
    /// An effect interpreted by the surrounding application (navigation,
    /// persistence, ...); it leaves the notification itself untouched.
    External(u64),
}

/// Mathematical model of a [`NotificationAction`].
#[verifier::ext_equal]
pub enum ActionView {
    Noop,
    Close,
    SetSelfEnabled(bool),
    SetTitle(Seq<char>),
    SetMessage(Seq<char>),
    SetLevel(NotificationLevel),
    External(u64),
}

impl View for NotificationAction {
    type V = ActionView;

    open spec fn view(&self) -> ActionView {
        match self {
            NotificationAction::Noop => ActionView::Noop,
            NotificationAction::Close => ActionView::Close,
            NotificationAction::SetSelfEnabled(v) => ActionView::SetSelfEnabled(*v),
            NotificationAction::SetTitle(t) => ActionView::SetTitle(t@),
            NotificationAction::SetMessage(m) => ActionView::SetMessage(m@),
            NotificationAction::SetLevel(l) => ActionView::SetLevel(*l),
            NotificationAction::External(k) => ActionView::External(*k),
        }
    }
}

impl Clone for NotificationAction {
    fn clone(&self) -> (res: Self)
        ensures
            res@ == self@,
    {
        match self {
            NotificationAction::Noop => NotificationAction::Noop,
            NotificationAction::Close => NotificationAction::Close,
            NotificationAction::SetSelfEnabled(v) => NotificationAction::SetSelfEnabled(*v),
            NotificationAction::SetTitle(t) => NotificationAction::SetTitle(t.clone()),
            NotificationAction::SetMessage(m) => NotificationAction::SetMessage(m.clone()),
            NotificationAction::SetLevel(l) => NotificationAction::SetLevel(*l),
            NotificationAction::External(k) => NotificationAction::External(*k),
        }
    }
}

/// A button that navigates to `target` when pressed; it carries no mutable
/// continuation, the navigation itself is the application's business.
#[derive(Debug)]
pub struct RedirectButton {
    kind: NotificationComponentKind,
    text: String,
    target: String,
    enabled: bool,
    id: String,
}

/// Mathematical model of a [`RedirectButton`].
#[verifier::ext_equal]
pub struct RedirectButtonView {
    pub kind: NotificationComponentKind,
    pub text: Seq<char>,
    pub target: Seq<char>,
    pub enabled: bool,
    pub id: Seq<char>,
}

impl View for RedirectButton {
    type V = RedirectButtonView;

    closed spec fn view(&self) -> RedirectButtonView {
        RedirectButtonView {
            kind: self.kind,
            text: self.text@,
            target: self.target@,
            enabled: self.enabled,
            id: self.id@,
        }
    }
}

impl Clone for RedirectButton {
    fn clone(&self) -> (res: Self)
        ensures
            res@ == self@,
    {
        RedirectButton {
            kind: self.kind,
            text: self.text.clone(),
            target: self.target.clone(),
            enabled: self.enabled,
            id: self.id.clone(),
        }
    }
}

impl RedirectButton {
    pub fn text(&self) -> (r: &str)
        ensures
            r@ == self@.text,
    {
        self.text.as_str()
    }

    pub fn target(&self) -> (r: &str)
        ensures
            r@ == self@.target,
    {
        self.target.as_str()
    }

    pub fn enabled(&self) -> (r: bool)
        ensures
            r == self@.enabled,
    {
        self.enabled
    }

    pub fn id(&self) -> (r: &str)
        ensures
            r@ == self@.id,
    {
        self.id.as_str()
    }

    pub fn kind(&self) -> (r: NotificationComponentKind)
        ensures
            r == self@.kind,
    {
        self.kind
    }

    pub fn set_kind(&mut self, kind: NotificationComponentKind)
        ensures
            final(self)@ == (RedirectButtonView { kind, ..old(self)@ }),
    {
        self.kind = kind;
    }

    pub fn set_text(&mut self, text: String)
        ensures
            final(self)@ == (RedirectButtonView { text: text@, ..old(self)@ }),
    {
        self.text = text;
    }

    pub fn set_target(&mut self, redirect: String)
        ensures
            final(self)@ == (RedirectButtonView { target: redirect@, ..old(self)@ }),
    {
        self.target = redirect;
    }

    pub fn set_enabled(&mut self, enabled: bool)
        ensures
            final(self)@ == (RedirectButtonView { enabled, ..old(self)@ }),
    {
        self.enabled = enabled;
    }
}

/// A button that, when pressed, applies its [`NotificationAction`] to the
/// owning notification.
#[derive(Debug)]
pub struct ActionButton {
    kind: NotificationComponentKind,
    text: String,
    action: NotificationAction,
    enabled: bool,
    id: String,
}

/// Mathematical model of an [`ActionButton`].
#[verifier::ext_equal]
pub struct ActionButtonView {
    pub kind: NotificationComponentKind,
    pub text: Seq<char>,
    pub action: ActionView,
    pub enabled: bool,
    pub id: Seq<char>,
}

impl View for ActionButton {
    type V = ActionButtonView;

    closed spec fn view(&self) -> ActionButtonView {
        ActionButtonView {
            kind: self.kind,
            text: self.text@,
            action: self.action@,
            enabled: self.enabled,
            id: self.id@,
        }
    }
}

impl Clone for ActionButton {
    fn clone(&self) -> (res: Self)
        ensures
            res@ == self@,
    {
        ActionButton {
            kind: self.kind,
            text: self.text.clone(),
            action: self.action.clone(),
            enabled: self.enabled,
            id: self.id.clone(),
        }
    }
}

impl ActionButton {
    pub fn text(&self) -> (r: &str)
        ensures
            r@ == self@.text,
    {
        self.text.as_str()
    }

    pub fn action(&self) -> (r: &NotificationAction)
        ensures
            r@ == self@.action,
    {
        &self.action
    }

    pub fn enabled(&self) -> (r: bool)
        ensures
            r == self@.enabled,
    {
        self.enabled
    }

    pub fn kind(&self) -> (r: NotificationComponentKind)
        ensures
            r == self@.kind,
    {
        self.kind
    }

    pub fn id(&self) -> (r: &str)
        ensures
            r@ == self@.id,
    {
        self.id.as_str()
    }

    pub fn set_text(&mut self, text: String)
        ensures
            final(self)@ == (ActionButtonView { text: text@, ..old(self)@ }),
    {
        self.text = text;
    }

    pub fn set_enabled(&mut self, enabled: bool)
        ensures
            final(self)@ == (ActionButtonView { enabled, ..old(self)@ }),
    {
        self.enabled = enabled;
    }

    pub fn set_kind(&mut self, kind: NotificationComponentKind)
        ensures
            final(self)@ == (ActionButtonView { kind, ..old(self)@ }),
    {
        self.kind = kind;
    }
}

/// A selection component over ordered `(key, label)` pairs. Keys need not be
/// unique; lookups take the first match. `default` is an index into `values`,
/// clamped at construction; `current_value` starts from the default entry's
/// key and changes independently afterwards.
#[derive(Debug)]
pub struct Dropdown {
    values: Vec<(String, String)>,
    current_value: String,
    default: usize,
    enabled: bool,
    on_change: NotificationAction,
    id: String,
}

/// Mathematical model of a [`Dropdown`].
#[verifier::ext_equal]
pub struct DropdownView {
    pub values: Seq<(Seq<char>, Seq<char>)>,
    pub current_value: Seq<char>,
    pub default: nat,
    pub enabled: bool,
    pub on_change: ActionView,
    pub id: Seq<char>,
}

/// The view of one `(key, label)` entry of a dropdown.
pub open spec fn entry_view(entry: (String, String)) -> (Seq<char>, Seq<char>) {
    (entry.0@, entry.1@)
}

impl View for Dropdown {
    type V = DropdownView;

    closed spec fn view(&self) -> DropdownView {
        DropdownView {
            values: self.values@.map_values(|entry: (String, String)| entry_view(entry)),
            current_value: self.current_value@,
            default: self.default as nat,
            enabled: self.enabled,
            on_change: self.on_change@,
            id: self.id@,
        }
    }
}

impl Clone for Dropdown {
    fn clone(&self) -> (res: Self)
        ensures
            res@ == self@,
    {
        let values = clone_entries(&self.values);
        proof {
            assert(values@.map_values(|entry: (String, String)| entry_view(entry))
                =~= self.values@.map_values(|entry: (String, String)| entry_view(entry)));
        }
        let res = Dropdown {
            values,
            current_value: self.current_value.clone(),
            default: self.default,
            enabled: self.enabled,
            on_change: self.on_change.clone(),
            id: self.id.clone(),
        };
        proof {
            assert(res@ =~= self@);
        }
        res
    }
}

/// Copies a dropdown's `(key, label)` entries.
fn clone_entries(values: &Vec<(String, String)>) -> (r: Vec<(String, String)>)
    ensures
        r@.len() == values@.len(),
        forall|i: int|
            0 <= i < values@.len() ==> #[trigger] entry_view(r@[i]) == entry_view(values@[i]),
{
    let mut out: Vec<(String, String)> = Vec::new();
    let mut i: usize = 0;
    while i < values.len()
        invariant
            i <= values@.len(),
            out@.len() == i,
            forall|j: int|
                0 <= j < i ==> #[trigger] entry_view(out@[j]) == entry_view(values@[j]),
        decreases values@.len() - i,
    {
        let entry = (values[i].0.clone(), values[i].1.clone());
        out.push(entry);
        i = i + 1;
    }
    out
}

impl Dropdown {
    pub fn values(&self) -> (r: Vec<(String, String)>)
        ensures
            r@.map_values(|entry: (String, String)| entry_view(entry)) == self@.values,
    {
        let r = clone_entries(&self.values);
        proof {
            assert(r@.map_values(|entry: (String, String)| entry_view(entry)) =~= self@.values);
        }
        r
    }

    pub fn default(&self) -> (r: usize)
        ensures
            r as nat == self@.default,
    {
        self.default
    }

    pub fn on_change(&self) -> (r: &NotificationAction)
        ensures
            r@ == self@.on_change,
    {
        &self.on_change
    }

    pub fn enabled(&self) -> (r: bool)
        ensures
            r == self@.enabled,
    {
        self.enabled
    }

    pub fn id(&self) -> (r: &str)
        ensures
            r@ == self@.id,
    {
        self.id.as_str()
    }

    pub fn current_value(&self) -> (r: &str)
        ensures
            r@ == self@.current_value,
    {
        self.current_value.as_str()
    }

    pub fn set_values(&mut self, values: Vec<(String, String)>)
        ensures
            final(self)@ == (DropdownView {
                values: values@.map_values(|entry: (String, String)| entry_view(entry)),
                ..old(self)@
            }),
    {
        self.values = values;
    }

    pub fn set_default(&mut self, default: usize)
        ensures
            final(self)@ == (DropdownView { default: default as nat, ..old(self)@ }),
    {
        self.default = default;
    }

    pub fn set_enabled(&mut self, enabled: bool)
        ensures
            final(self)@ == (DropdownView { enabled, ..old(self)@ }),
    {
        self.enabled = enabled;
    }

    pub fn set_current_value(&mut self, value: String)
        ensures
            final(self)@ == (DropdownView { current_value: value@, ..old(self)@ }),
    {
        self.current_value = value;
    }
}

/// One interactive element of a notification.
#[derive(Debug)]
pub enum NotificationComponent {
    RedirectButton(RedirectButton),
    ActionButton(ActionButton),
    Dropdown(Dropdown),
}

/// Mathematical model of a [`NotificationComponent`].
#[verifier::ext_equal]
pub enum ComponentView {
    RedirectButton(RedirectButtonView),
    ActionButton(ActionButtonView),
    Dropdown(DropdownView),
}

/// The identity string of a component, used for lookups on the owning
/// notification. An empty id means the component is unaddressable.
pub open spec fn component_id(c: ComponentView) -> Seq<char> {
    match c {
        ComponentView::RedirectButton(b) => b.id,
        ComponentView::ActionButton(b) => b.id,
        ComponentView::Dropdown(d) => d.id,
    }
}

/// Buttons of either sort share one layout compatibility key; a dropdown
/// never shares its key with anything.
pub open spec fn is_button(c: ComponentView) -> bool {
    !(c is Dropdown)
}

impl View for NotificationComponent {
    type V = ComponentView;

    open spec fn view(&self) -> ComponentView {
        match self {
            NotificationComponent::RedirectButton(b) => ComponentView::RedirectButton(b@),
            NotificationComponent::ActionButton(b) => ComponentView::ActionButton(b@),
            NotificationComponent::Dropdown(d) => ComponentView::Dropdown(d@),
        }
    }
}

impl Clone for NotificationComponent {
    fn clone(&self) -> (res: Self)
        ensures
            res@ == self@,
    {
        match self {
            NotificationComponent::RedirectButton(b) => NotificationComponent::RedirectButton(
                b.clone(),
            ),
            NotificationComponent::ActionButton(b) => NotificationComponent::ActionButton(
                b.clone(),
            ),
            NotificationComponent::Dropdown(d) => NotificationComponent::Dropdown(d.clone()),
        }
    }
}

impl NotificationComponent {
    /// Whether this component takes the shared button compatibility key
    /// when the layout grouping runs.
    pub fn is_button(&self) -> (r: bool)
        ensures
            r == is_button(self@),
    {
        !(matches!(self, NotificationComponent::Dropdown(_)))
    }

    pub fn id(&self) -> (r: &str)
        ensures
            r@ == component_id(self@),
    {
        match self {
            NotificationComponent::RedirectButton(button) => button.id(),
            NotificationComponent::ActionButton(button) => button.id(),
            NotificationComponent::Dropdown(dropdown) => dropdown.id(),
        }
    }
}

impl From<RedirectButton> for NotificationComponent {
    fn from(val: RedirectButton) -> (r: Self) {
        NotificationComponent::RedirectButton(val)
    }
}

impl vstd::std_specs::convert::FromSpecImpl<RedirectButton> for NotificationComponent {
    open spec fn obeys_from_spec() -> bool {
        true
    }

    open spec fn from_spec(t: RedirectButton) -> Self {
        NotificationComponent::RedirectButton(t)
    }
}

impl From<ActionButton> for NotificationComponent {
    fn from(val: ActionButton) -> (r: Self) {
        NotificationComponent::ActionButton(val)
    }
}

impl vstd::std_specs::convert::FromSpecImpl<ActionButton> for NotificationComponent {
    open spec fn obeys_from_spec() -> bool {
        true
    }

    open spec fn from_spec(t: ActionButton) -> Self {
        NotificationComponent::ActionButton(t)
    }
}

impl From<Dropdown> for NotificationComponent {
    fn from(val: Dropdown) -> (r: Self) {
        NotificationComponent::Dropdown(val)
    }
}

impl vstd::std_specs::convert::FromSpecImpl<Dropdown> for NotificationComponent {
    open spec fn obeys_from_spec() -> bool {
        true
    }

    open spec fn from_spec(t: Dropdown) -> Self {
        NotificationComponent::Dropdown(t)
    }
}

/// Assembles a [`RedirectButton`]; `text` and `target` are expected, the
/// rest have the documented defaults.
pub struct RedirectButtonBuilder {
    pub kind: NotificationComponentKind,
    pub text: Option<String>,
    pub target: Option<String>,
    pub enabled: bool,
    pub id: String,
}

impl RedirectButton {
    pub fn builder() -> (r: RedirectButtonBuilder)
        ensures
            r.kind == NotificationComponentKind::Primary,
            r.text is None,
            r.target is None,
            r.enabled == true,
            r.id@ == Seq::<char>::empty(),
    {
        RedirectButtonBuilder {
            kind: NotificationComponentKind::Primary,
            text: None,
            target: None,
            enabled: true,
            id: String::new(),
        }
    }
}

impl RedirectButtonBuilder {
    pub fn kind(self, kind: NotificationComponentKind) -> (r: Self)
        ensures
            r == (RedirectButtonBuilder { kind, ..self }),
    {
        RedirectButtonBuilder { kind, ..self }
    }

    pub fn text(self, text: &str) -> (r: Self)
        ensures
            r.text matches Some(t) && t@ == text@,
            r.kind == self.kind && r.target == self.target && r.enabled == self.enabled && r.id
                == self.id,
    {
        RedirectButtonBuilder { text: Some(text.to_owned()), ..self }
    }

    pub fn target(self, target: &str) -> (r: Self)
        ensures
            r.target matches Some(t) && t@ == target@,
            r.kind == self.kind && r.text == self.text && r.enabled == self.enabled && r.id
                == self.id,
    {
        RedirectButtonBuilder { target: Some(target.to_owned()), ..self }
    }

    pub fn enabled(self, enabled: bool) -> (r: Self)
        ensures
            r == (RedirectButtonBuilder { enabled, ..self }),
    {
        RedirectButtonBuilder { enabled, ..self }
    }

    pub fn id(self, id: &str) -> (r: Self)
        ensures
            r.id@ == id@,
            r.kind == self.kind && r.text == self.text && r.target == self.target && r.enabled
                == self.enabled,
    {
        RedirectButtonBuilder { id: id.to_owned(), ..self }
    }

    /// Finishes the button. A missing `text` or `target` is taken as empty;
    /// the original assembly protocol does not let that happen.
    pub fn build(self) -> (r: RedirectButton)
        ensures
            r@.kind == self.kind,
            self.text matches Some(t) ==> r@.text == t@,
            self.text is None ==> r@.text == Seq::<char>::empty(),
            self.target matches Some(t) ==> r@.target == t@,
            self.target is None ==> r@.target == Seq::<char>::empty(),
            r@.enabled == self.enabled,
            r@.id == self.id@,
    {
        RedirectButton {
            kind: self.kind,
            text: match self.text {
                Some(t) => t,
                None => String::new(),
            },
            target: match self.target {
                Some(t) => t,
                None => String::new(),
            },
            enabled: self.enabled,
            id: self.id,
        }
    }
}

/// Assembles an [`ActionButton`]; `text` is expected, the rest have the
/// documented defaults (a no-op action, enabled, primary, empty id).
pub struct ActionButtonBuilder {
    pub kind: NotificationComponentKind,
    pub text: Option<String>,
    pub action: NotificationAction,
    pub enabled: bool,
    pub id: String,
}

impl ActionButton {
    pub fn builder() -> (r: ActionButtonBuilder)
        ensures
            r.kind == NotificationComponentKind::Primary,
            r.text is None,
            r.action@ == ActionView::Noop,
            r.enabled == true,
            r.id@ == Seq::<char>::empty(),
    {
        ActionButtonBuilder {
            kind: NotificationComponentKind::Primary,
            text: None,
            action: NotificationAction::Noop,
            enabled: true,
            id: String::new(),
        }
    }
}

impl ActionButtonBuilder {
    pub fn kind(self, kind: NotificationComponentKind) -> (r: Self)
        ensures
            r == (ActionButtonBuilder { kind, ..self }),
    {
        ActionButtonBuilder { kind, ..self }
    }

    pub fn text(self, text: &str) -> (r: Self)
        ensures
            r.text matches Some(t) && t@ == text@,
            r.kind == self.kind && r.action == self.action && r.enabled == self.enabled && r.id
                == self.id,
    {
        ActionButtonBuilder { text: Some(text.to_owned()), ..self }
    }

    pub fn action(self, action: NotificationAction) -> (r: Self)
        ensures
            r == (ActionButtonBuilder { action, ..self }),
    {
        ActionButtonBuilder { action, ..self }
    }

    pub fn enabled(self, enabled: bool) -> (r: Self)
        ensures
            r == (ActionButtonBuilder { enabled, ..self }),
    {
        ActionButtonBuilder { enabled, ..self }
    }

    pub fn id(self, id: &str) -> (r: Self)
        ensures
            r.id@ == id@,
            r.kind == self.kind && r.text == self.text && r.action == self.action && r.enabled
                == self.enabled,
    {
        ActionButtonBuilder { id: id.to_owned(), ..self }
    }

    /// Finishes the button. A missing `text` is taken as empty; the original
    /// assembly protocol does not let that happen.
    pub fn build(self) -> (r: ActionButton)
        ensures
            r@.kind == self.kind,
            self.text matches Some(t) ==> r@.text == t@,
            self.text is None ==> r@.text == Seq::<char>::empty(),
            r@.action == self.action@,
            r@.enabled == self.enabled,
            r@.id == self.id@,
    {
        ActionButton {
            kind: self.kind,
            text: match self.text {
                Some(t) => t,
                None => String::new(),
            },
            action: self.action,
            enabled: self.enabled,
            id: self.id,
        }
    }
}

/// Where a requested dropdown default index lands once clamped to the range
/// of the value list: the last entry if it points past the end, 0 if the
/// list is empty.
pub open spec fn clamped_default(n_values: nat, requested: nat) -> nat {
    if n_values == 0 {
        0
    } else if requested >= n_values {
        (n_values - 1) as nat
    } else {
        requested
    }
}

/// Assembles a [`Dropdown`]: entries are appended with `add_value`, the rest
/// have the documented defaults.
pub struct DropdownBuilder {
    pub values: Vec<(String, String)>,
    pub default: usize,
    pub enabled: bool,
    pub on_change: NotificationAction,
    pub id: String,
}

impl Dropdown {
    pub fn builder() -> (r: DropdownBuilder)
        ensures
            r.values@ == Seq::<(String, String)>::empty(),
            r.default == 0,
            r.enabled == true,
            r.on_change@ == ActionView::Noop,
            r.id@ == Seq::<char>::empty(),
    {
        DropdownBuilder {
            values: Vec::new(),
            default: 0,
            enabled: true,
            on_change: NotificationAction::Noop,
            id: String::new(),
        }
    }
}

impl DropdownBuilder {
    /// Appends one `(key, label)` entry; insertion order is kept.
    pub fn add_value(self, key: &str, value: &str) -> (r: Self)
        ensures
            r.values@.len() == self.values@.len() + 1,
            r.values@.map_values(|entry: (String, String)| entry_view(entry))
                == self.values@.map_values(|entry: (String, String)| entry_view(entry)).push(
                (key@, value@),
            ),
            r.default == self.default && r.enabled == self.enabled && r.on_change == self.on_change
                && r.id == self.id,
    {
        let mut values = self.values;
        values.push((key.to_owned(), value.to_owned()));
        proof {
            assert(values@.map_values(|entry: (String, String)| entry_view(entry))
                =~= self.values@.map_values(|entry: (String, String)| entry_view(entry)).push(
                (key@, value@),
            ));
        }
        DropdownBuilder { values, ..self }
    }

    pub fn default(self, default: usize) -> (r: Self)
        ensures
            r == (DropdownBuilder { default, ..self }),
    {
        DropdownBuilder { default, ..self }
    }

    pub fn enabled(self, enabled: bool) -> (r: Self)
        ensures
            r == (DropdownBuilder { enabled, ..self }),
    {
        DropdownBuilder { enabled, ..self }
    }

    pub fn on_change(self, on_change: NotificationAction) -> (r: Self)
        ensures
            r == (DropdownBuilder { on_change, ..self }),
    {
        DropdownBuilder { on_change, ..self }
    }

    pub fn id(self, id: &str) -> (r: Self)
        ensures
            r.id@ == id@,
            r.values == self.values && r.default == self.default && r.enabled == self.enabled
                && r.on_change == self.on_change,
    {
        DropdownBuilder { id: id.to_owned(), ..self }
    }

    /// Finishes the dropdown: the default index is clamped to the value
    /// list, and the current value starts as the key of the default entry
    /// (empty when there are no entries).
    pub fn build(self) -> (r: Dropdown)
        ensures
            r@.values == self.values@.map_values(|entry: (String, String)| entry_view(entry)),
            r@.default == clamped_default(self.values@.len(), self.default as nat),
            self.values@.len() == 0 ==> r@.current_value == Seq::<char>::empty(),
            self.values@.len() > 0 ==> r@.current_value == entry_view(
                self.values@[clamped_default(self.values@.len(), self.default as nat) as int],
            ).0,
            r@.enabled == self.enabled,
            r@.on_change == self.on_change@,
            r@.id == self.id@,
    {
        let n = self.values.len();
        let default: usize = if n == 0 {
            0
        } else if self.default >= n {
            n - 1
        } else {
            self.default
        };
        let current_value = if n == 0 {
            String::new()
        } else {
            self.values[default].0.clone()
        };
        Dropdown {
            values: self.values,
            current_value,
            default,
            enabled: self.enabled,
            on_change: self.on_change,
            id: self.id,
        }
    }
}

} // verus!
