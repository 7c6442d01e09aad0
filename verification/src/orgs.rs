//! Organisations: their profile and their colours.

use vstd::prelude::*;

use crate::auth::{ensure_own_org, AuthUser};
use crate::error::AppError;
use crate::flow;
use crate::flow::{Effect, Job, Reply, Step};
use crate::records::{OrgOut, OrgView, ThemeIn, ThemeOut, ThemeView, UpdateOrgBody};

verus! {

/// The colours of an organisation that has not chosen any.
pub open spec fn default_theme_view() -> ThemeView {
    ThemeView {
        primary: "#1F4D3E"@,
        primary_dark: "#123328"@,
        accent: "#C9A15F"@,
        accent_soft: "#F3E9D2"@,
        background: "#FBF8F2"@,
        surface: "#FFFFFF"@,
        text_primary: "#20241F"@,
        text_secondary: "#71786D"@,
        border: "#E9E4D6"@,
    }
}

pub fn default_theme() -> (r: ThemeOut)
    ensures
        r@ == default_theme_view(),
{
    ThemeOut {
        primary: "#1F4D3E".to_string(),
        primary_dark: "#123328".to_string(),
        accent: "#C9A15F".to_string(),
        accent_soft: "#F3E9D2".to_string(),
        background: "#FBF8F2".to_string(),
        surface: "#FFFFFF".to_string(),
        text_primary: "#20241F".to_string(),
        text_secondary: "#71786D".to_string(),
        border: "#E9E4D6".to_string(),
    }
}

/// The colours that a request gives.
pub fn chosen_theme(theme: ThemeIn) -> (r: ThemeOut)
    ensures
        r@ == theme@,
{
    ThemeOut {
        primary: theme.primary,
        primary_dark: theme.primary_dark,
        accent: theme.accent,
        accent_soft: theme.accent_soft,
        background: theme.background,
        surface: theme.surface,
        text_primary: theme.text_primary,
        text_secondary: theme.text_secondary,
        border: theme.border,
    }
}

/// The organisation with what the request gives in place of what it was.
pub open spec fn changed_org(current: OrgView, body: UpdateOrgBody, org_id: Seq<char>) -> OrgView {
    OrgView {
        id: org_id,
        name: match body.name {
            Some(name) => name@,
            None => current.name,
        },
        tagline: match body.tagline {
            Some(tagline) => tagline@,
            None => current.tagline,
        },
        logo_initial: match body.logo_initial {
            Some(logo_initial) => logo_initial@,
            None => current.logo_initial,
        },
        theme: match body.theme {
            Some(theme) => theme@,
            None => current.theme,
        },
    }
}

pub fn change_org(current: OrgOut, body: UpdateOrgBody, org_id: String) -> (r: OrgOut)
    ensures
        r.id == org_id,
        r@ == changed_org(current@, body, org_id@),
{
    OrgOut {
        id: org_id,
        name: match body.name {
            Some(name) => name,
            None => current.name,
        },
        tagline: match body.tagline {
            Some(tagline) => tagline,
            None => current.tagline,
        },
        logo_initial: match body.logo_initial {
            Some(logo_initial) => logo_initial,
            None => current.logo_initial,
        },
        theme: match body.theme {
            Some(theme) => chosen_theme(theme),
            None => current.theme,
        },
    }
}

/// What is left to do of a request that is answered with an organisation.
#[derive(Debug)]
pub enum OrgJob {
    /// The organisation as it is was asked for, to be changed.
    Reading { org_id: String, body: UpdateOrgBody },
    /// The changed organisation was sent to the store.
    Changing { org_id: String },
    /// The organisation was asked for, to be shown.
    Showing,
}

impl Job for OrgJob {
    type Out = OrgOut;

    open spec fn awaits(&self, reply: Reply) -> bool {
        reply is Failed || match self {
            OrgJob::Changing { .. } => reply is Changed,
            _ => reply is Org,
        }
    }

    open spec fn turns_left(&self) -> nat {
        match self {
            OrgJob::Reading { .. } => 3,
            OrgJob::Changing { .. } => 2,
            OrgJob::Showing => 1,
        }
    }

    open spec fn turn(&self, reply: Reply, step: Step<OrgJob, OrgOut>) -> bool {
        match reply {
            Reply::Failed(failure) => flow::fails_with(step, failure),
            _ => match self {
                OrgJob::Reading { org_id, body } => {
                    &&& step matches Step::Await { effect: Effect::UpdateOrg { org }, job }
                    &&& org@ == changed_org(reply->Org_0@, *body, org_id@)
                    &&& job == OrgJob::Changing { org_id: *org_id }
                },
                OrgJob::Changing { org_id } => step == Step::<OrgJob, OrgOut>::Await {
                    effect: Effect::FindOrg { org_id: *org_id },
                    job: OrgJob::Showing,
                },
                OrgJob::Showing => step == Step::<OrgJob, OrgOut>::Done(Ok(reply->Org_0)),
            },
        }
    }

    fn resume(self, reply: Reply) -> (step: Step<OrgJob, OrgOut>) {
        match reply {
            Reply::Failed(failure) => Step::Done(Err(AppError::from_store(&failure))),
            Reply::Org(org) => match self {
                OrgJob::Reading { org_id, body } => Step::Await {
                    effect: Effect::UpdateOrg { org: change_org(org, body, org_id.clone()) },
                    job: OrgJob::Changing { org_id },
                },
                _ => Step::Done(Ok(org)),
            },
            _ => match self {
                OrgJob::Changing { org_id } => Step::Await {
                    effect: Effect::FindOrg { org_id },
                    job: OrgJob::Showing,
                },
                _ => vstd::pervasive::unreached(),
            },
        }
    }

    proof fn goes_on_ready(&self, reply: Reply, step: Step<OrgJob, OrgOut>) {
    }
}

/// An organisation, for anyone.
pub fn get_org_handler(org_id: String) -> (step: Step<OrgJob, OrgOut>)
    ensures
        step == (Step::<OrgJob, OrgOut>::Await {
            effect: Effect::FindOrg { org_id },
            job: OrgJob::Showing,
        }),
        flow::ready(step),
{
    Step::Await { effect: Effect::FindOrg { org_id }, job: OrgJob::Showing }
}

pub open spec fn update_org_asks(
    auth: AuthUser,
    org_id: String,
    body: UpdateOrgBody,
    step: Step<OrgJob, OrgOut>,
) -> bool {
    if auth.org_id@ != org_id@ {
        flow::not_own_org(step)
    } else {
        step == Step::<OrgJob, OrgOut>::Await {
            effect: Effect::FindOrg { org_id },
            job: OrgJob::Reading { org_id, body },
        }
    }
}

/// A change of an organisation, by one of its admins.
pub fn update_org(auth: &AuthUser, org_id: String, body: UpdateOrgBody) -> (step: Step<
    OrgJob,
    OrgOut,
>)
    ensures
        update_org_asks(*auth, org_id, body, step),
        flow::ready(step),
{
    match ensure_own_org(auth, org_id.as_str()) {
        Ok(()) => Step::Await {
            effect: Effect::FindOrg { org_id: org_id.clone() },
            job: OrgJob::Reading { org_id, body },
        },
        Err(e) => Step::Done(Err(e)),
    }
}

} // verus!
