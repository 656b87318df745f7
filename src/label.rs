//! The application label: an application and the API behaviours it declares,
//! each with the hazards it carries.

use vstd::prelude::*;

verus! {

/// A named hazard attached to an API.
#[derive(Clone, Debug)]
pub struct Hazard {
    pub name: String,
}

/// One behaviour of an API: the kind of device it acts on and the action.
#[derive(Clone, Debug)]
pub struct BehaviorLabel {
    pub device_type: String,
    pub action: String,
}

/// The hazards of an API, by category.
#[derive(Clone, Debug)]
pub struct SecurityLabel {
    pub safety: Vec<Hazard>,
    pub privacy: Vec<Hazard>,
    pub financial: Vec<Hazard>,
}

/// The behaviour and risk annotations of one API.
#[derive(Clone, Debug)]
pub struct ApiLabel {
    pub behavior_label: Vec<BehaviorLabel>,
    pub security_label: SecurityLabel,
}

/// An application and its API labels, in the order they were declared.
#[derive(Clone, Debug)]
pub struct AppLabel {
    pub app_name: String,
    pub api_labels: Vec<ApiLabel>,
}

/// The content of an API label: its behaviours as (device type, action)
/// pairs, and the hazard names of each category.
pub struct ApiLabelView {
    pub behaviors: Seq<(Seq<char>, Seq<char>)>,
    pub safety: Seq<Seq<char>>,
    pub privacy: Seq<Seq<char>>,
    pub financial: Seq<Seq<char>>,
}

/// The content of an application label.
pub struct AppLabelView {
    pub app_name: Seq<char>,
    pub api_labels: Seq<ApiLabelView>,
}

/// The names of a list of hazards.
pub open spec fn hazard_names(hs: Seq<Hazard>) -> Seq<Seq<char>> {
    hs.map_values(|h: Hazard| h.name@)
}

impl View for BehaviorLabel {
    type V = (Seq<char>, Seq<char>);

    open spec fn view(&self) -> (Seq<char>, Seq<char>) {
        (self.device_type@, self.action@)
    }
}

impl View for ApiLabel {
    type V = ApiLabelView;

    open spec fn view(&self) -> ApiLabelView {
        ApiLabelView {
            behaviors: self.behavior_label@.map_values(|b: BehaviorLabel| b@),
            safety: hazard_names(self.security_label.safety@),
            privacy: hazard_names(self.security_label.privacy@),
            financial: hazard_names(self.security_label.financial@),
        }
    }
}

impl View for AppLabel {
    type V = AppLabelView;

    open spec fn view(&self) -> AppLabelView {
        AppLabelView {
            app_name: self.app_name@,
            api_labels: self.api_labels@.map_values(|l: ApiLabel| l@),
        }
    }
}

} // verus!
