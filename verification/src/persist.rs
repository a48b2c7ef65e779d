//! The coordinator's configuration and its builder.

use vstd::prelude::*;

verus! {

/// What a coordinator is configured with: the identity triple that selects the
/// storage directory, and the formatting preference.
pub struct PersistView {
    pub qualifier: Option<Seq<char>>,
    pub organization: Option<Seq<char>>,
    pub application: Seq<char>,
    pub pretty: bool,
}

impl PersistView {
    /// The minimal configuration: no qualifier, no organization, pretty output.
    pub open spec fn new(application: Seq<char>) -> PersistView {
        PersistView { qualifier: None, organization: None, application, pretty: true }
    }

    pub open spec fn with_qualifier(self, qualifier: Seq<char>) -> PersistView {
        PersistView { qualifier: Some(qualifier), ..self }
    }

    pub open spec fn with_organization(self, organization: Seq<char>) -> PersistView {
        PersistView { organization: Some(organization), ..self }
    }

    pub open spec fn compact(self) -> PersistView {
        PersistView { pretty: false, ..self }
    }

    /// The triple handed to the location resolver: an absent qualifier or
    /// organization counts as the empty string.
    pub open spec fn identity(self) -> (Seq<char>, Seq<char>, Seq<char>) {
        (
            match self.qualifier {
                Some(qualifier) => qualifier,
                None => Seq::empty(),
            },
            match self.organization {
                Some(organization) => organization,
                None => Seq::empty(),
            },
            self.application,
        )
    }

    /// The text that names this configuration in messages: the parts that are
    /// present, each followed by a slash, then the application.
    pub open spec fn display(self) -> Seq<char> {
        segment(self.qualifier) + segment(self.organization) + self.application
    }
}

/// An optional part of the identity as it appears in [`PersistView::display`].
pub open spec fn segment(part: Option<Seq<char>>) -> Seq<char> {
    match part {
        Some(text) => text.push('/'),
        None => Seq::empty(),
    }
}

/// Qualifier and organization are independent of each other: set in either
/// order they give the same configuration, whose identity triple holds the
/// two values and the application that the builder started with.
pub proof fn builder_fields_are_independent(
    start: PersistView,
    qualifier: Seq<char>,
    organization: Seq<char>,
)
    ensures
        start.with_qualifier(qualifier).with_organization(organization)
            == start.with_organization(organization).with_qualifier(qualifier),
        start.with_qualifier(qualifier).with_organization(organization).identity() == (
            qualifier,
            organization,
            start.application,
        ),
        start.with_organization(organization).with_qualifier(qualifier).identity() == (
            qualifier,
            organization,
            start.application,
        ),
{
}

/// Within one field the last value set is the one that counts.
pub proof fn builder_last_value_wins(start: PersistView, first: Seq<char>, second: Seq<char>)
    ensures
        start.with_qualifier(first).with_qualifier(second) == start.with_qualifier(second),
        start.with_organization(first).with_organization(second) == start.with_organization(
            second,
        ),
        start.compact().compact() == start.compact(),
{
}

/// The formatting preference and the identity do not touch each other:
/// `compact` can come before or after a field is set, and it leaves the
/// identity triple as it was.
pub proof fn builder_format_is_independent(start: PersistView, text: Seq<char>)
    ensures
        start.compact().with_qualifier(text) == start.with_qualifier(text).compact(),
        start.compact().with_organization(text) == start.with_organization(text).compact(),
        start.compact().identity() == start.identity(),
        start.with_qualifier(text).pretty == start.pretty,
        start.with_organization(text).pretty == start.pretty,
{
}

/// The persistence coordinator: an identity triple and a formatting
/// preference, fixed once built.
#[derive(Debug)]
pub struct Persist {
    qualifier: Option<String>,
    organization: Option<String>,
    application: String,
    pretty: bool,
}

impl View for Persist {
    type V = PersistView;

    closed spec fn view(&self) -> PersistView {
        PersistView {
            qualifier: match self.qualifier {
                Some(qualifier) => Some(qualifier@),
                None => None,
            },
            organization: match self.organization {
                Some(organization) => Some(organization@),
                None => None,
            },
            application: self.application@,
            pretty: self.pretty,
        }
    }
}

impl Clone for Persist {
    fn clone(&self) -> (copy: Self)
        ensures
            copy@ == self@,
    {
        Persist {
            qualifier: match &self.qualifier {
                Some(qualifier) => Some(qualifier.clone()),
                None => None,
            },
            organization: match &self.organization {
                Some(organization) => Some(organization.clone()),
                None => None,
            },
            application: self.application.clone(),
            pretty: self.pretty,
        }
    }
}

impl Persist {
    /// A coordinator for `application` with no qualifier, no organization and
    /// pretty output.
    pub fn new(application: &str) -> (persist: Persist)
        ensures
            persist@ == PersistView::new(application@),
    {
        Persist {
            qualifier: None,
            organization: None,
            application: application.to_owned(),
            pretty: true,
        }
    }

    /// A builder that starts from what [`Persist::new`] gives.
    pub fn builder(application: &str) -> (builder: PersistBuilder)
        ensures
            builder@ == PersistView::new(application@),
    {
        PersistBuilder(
            Persist {
                qualifier: None,
                organization: None,
                application: application.to_owned(),
                pretty: true,
            },
        )
    }

    /// Whether the envelope is written in the pretty form.
    pub fn pretty(&self) -> (pretty: bool)
        ensures
            pretty == self@.pretty,
    {
        self.pretty
    }

    /// The qualifier, organization and application handed to the location
    /// resolver.
    pub fn identity(&self) -> (triple: (&str, &str, &str))
        ensures
            (triple.0@, triple.1@, triple.2@) == self@.identity(),
    {
        proof {
            reveal_strlit("");
        }
        let qualifier = match &self.qualifier {
            Some(qualifier) => qualifier.as_str(),
            None => "",
        };
        let organization = match &self.organization {
            Some(organization) => organization.as_str(),
            None => "",
        };
        assert(""@ =~= Seq::<char>::empty());
        (qualifier, organization, self.application.as_str())
    }

    /// The name of this coordinator in messages, such as `org/acme/editor`.
    pub fn to_string(&self) -> (text: String)
        ensures
            text@ == self@.display(),
    {
        proof {
            reveal_strlit("/");
        }
        let mut text = String::new();
        if let Some(qualifier) = &self.qualifier {
            text.append(qualifier.as_str());
            text.append("/");
        }
        if let Some(organization) = &self.organization {
            text.append(organization.as_str());
            text.append("/");
        }
        text.append(self.application.as_str());
        text
    }
}

/// A coordinator under construction. Each method returns a new builder.
#[derive(Debug)]
pub struct PersistBuilder(Persist);

impl View for PersistBuilder {
    type V = PersistView;

    closed spec fn view(&self) -> PersistView {
        self.0@
    }
}

impl PersistBuilder {
    /// The coordinator that was configured.
    pub fn build(self) -> (persist: Persist)
        ensures
            persist@ == self@,
    {
        self.0
    }

    /// Sets the qualifier; one set earlier is replaced.
    pub fn with_qualifier(self, qualifier: &str) -> (builder: Self)
        ensures
            builder@ == self@.with_qualifier(qualifier@),
    {
        PersistBuilder(Persist { qualifier: Some(qualifier.to_owned()), ..self.0 })
    }

    /// Sets the organization; one set earlier is replaced.
    pub fn with_organization(self, organization: &str) -> (builder: Self)
        ensures
            builder@ == self@.with_organization(organization@),
    {
        PersistBuilder(Persist { organization: Some(organization.to_owned()), ..self.0 })
    }

    /// Asks for the compact form instead of the pretty one.
    pub fn compact(self) -> (builder: Self)
        ensures
            builder@ == self@.compact(),
    {
        PersistBuilder(Persist { pretty: false, ..self.0 })
    }
}

} // verus!
