use vstd::prelude::*;

verus! {

/// The templates the site renders.
#[derive(Clone, Copy, Debug, PartialEq, Eq, Structural)]
pub enum Template {
    Index,
    Signup,
    Login,
    DeviceFound,
    Profile,
}

/// The file name of a template.
pub open spec fn template_name(t: Template) -> Seq<char> {
    match t {
        Template::Index => "index"@,
        Template::Signup => "signup"@,
        Template::Login => "login"@,
        Template::DeviceFound => "device_found"@,
        Template::Profile => "profile"@,
    }
}

impl Template {
    /// The name under which the template engine knows this template.
    pub fn name(&self) -> (r: &'static str)
        ensures
            r@ == template_name(*self),
    {
        match self {
            Template::Index => "index",
            Template::Signup => "signup",
            Template::Login => "login",
            Template::DeviceFound => "device_found",
            Template::Profile => "profile",
        }
    }
}

/// A value handed to a template.
#[derive(Clone, Debug, PartialEq, Eq)]
pub enum ContextValue {
    Text(String),
    Flag(bool),
}

/// What a context value holds.
pub enum ContextValueView {
    Text(Seq<char>),
    Flag(bool),
}

impl View for ContextValue {
    type V = ContextValueView;

    open spec fn view(&self) -> ContextValueView {
        match self {
            ContextValue::Text(s) => ContextValueView::Text(s@),
            ContextValue::Flag(b) => ContextValueView::Flag(*b),
        }
    }
}

/// A rendered page: a template and the named values it is rendered with,
/// in the order they were given.
#[derive(Clone, Debug, PartialEq, Eq)]
pub struct Page {
    pub template: Template,
    pub context: Vec<(&'static str, ContextValue)>,
}

/// What a page holds: the template and the (key, value) pairs of its context.
pub struct PageView {
    pub template: Template,
    pub context: Seq<(Seq<char>, ContextValueView)>,
}

pub open spec fn entry_view(e: (&'static str, ContextValue)) -> (Seq<char>, ContextValueView) {
    (e.0@, e.1@)
}

impl View for Page {
    type V = PageView;

    open spec fn view(&self) -> PageView {
        PageView { template: self.template, context: self.context@.map_values(|e| entry_view(e)) }
    }
}

/// A context entry holding text.
pub open spec fn text(key: Seq<char>, value: Seq<char>) -> (Seq<char>, ContextValueView) {
    (key, ContextValueView::Text(value))
}

/// A context entry holding a flag.
pub open spec fn flag(key: Seq<char>, value: bool) -> (Seq<char>, ContextValueView) {
    (key, ContextValueView::Flag(value))
}

/// The page view of `template` rendered with `context`.
pub open spec fn page_view(
    template: Template,
    context: Seq<(Seq<char>, ContextValueView)>,
) -> PageView {
    PageView { template, context }
}

/// Where a response sends the browser.
#[derive(Clone, Debug, PartialEq, Eq)]
pub enum Redirect {
    Index,
    LoginPage,
    ProfilePage(String),
}

/// The target of a redirect, with the profile id as characters.
pub enum RedirectView {
    Index,
    LoginPage,
    ProfilePage(Seq<char>),
}

impl View for Redirect {
    type V = RedirectView;

    open spec fn view(&self) -> RedirectView {
        match self {
            Redirect::Index => RedirectView::Index,
            Redirect::LoginPage => RedirectView::LoginPage,
            Redirect::ProfilePage(id) => RedirectView::ProfilePage(id@),
        }
    }
}

impl Page {
    /// A page of `template` with an empty context.
    pub fn new(template: Template) -> (p: Page)
        ensures
            p@ == page_view(template, seq![]),
    {
        let p = Page { template, context: Vec::new() };
        assert(p@.context =~= seq![]);
        p
    }

    /// Adds a text value under `key`.
    pub fn with_text(self, key: &'static str, value: String) -> (p: Page)
        ensures
            p@ == page_view(self@.template, self@.context.push(text(key@, value@))),
    {
        let mut p = self;
        let ghost before = p.context@;
        p.context.push((key, ContextValue::Text(value)));
        assert(p.context@ == before.push((key, ContextValue::Text(value))));
        assert(p@.context =~= self@.context.push(text(key@, value@)));
        p
    }

    /// Adds a flag under `key`.
    pub fn with_flag(self, key: &'static str, value: bool) -> (p: Page)
        ensures
            p@ == page_view(self@.template, self@.context.push(flag(key@, value))),
    {
        let mut p = self;
        let ghost before = p.context@;
        p.context.push((key, ContextValue::Flag(value)));
        assert(p.context@ == before.push((key, ContextValue::Flag(value))));
        assert(p@.context =~= self@.context.push(flag(key@, value)));
        p
    }
}

} // verus!
