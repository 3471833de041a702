//! VPS instances and the cloud provider's account of them.

use crate::clock::Timestamp;
use crate::text::{all_lower_letters, lowercase, lowercase_text, text_is};
use vstd::prelude::*;
use vstd::string::*;

verus! {

/// Power state of a VPS instance, as last read from the provider.
#[derive(Debug, Clone, Copy, PartialEq, Eq)]
pub enum VpsStatus {
    Running,
    Starting,
    Stopping,
    Stopped,
    Deleting,
    Error,
}

impl VpsStatus {
    /// The stored form of the status.
    pub open spec fn name(self) -> Seq<char> {
        match self {
            VpsStatus::Running => "running"@,
            VpsStatus::Starting => "starting"@,
            VpsStatus::Stopping => "stopping"@,
            VpsStatus::Stopped => "stopped"@,
            VpsStatus::Deleting => "deleting"@,
            VpsStatus::Error => "error"@,
        }
    }

    /// The status whose stored form is `text`, if there is one.
    pub open spec fn named(text: Seq<char>) -> Option<VpsStatus> {
        if text == "running"@ {
            Some(VpsStatus::Running)
        } else if text == "starting"@ {
            Some(VpsStatus::Starting)
        } else if text == "stopping"@ {
            Some(VpsStatus::Stopping)
        } else if text == "stopped"@ {
            Some(VpsStatus::Stopped)
        } else if text == "deleting"@ {
            Some(VpsStatus::Deleting)
        } else if text == "error"@ {
            Some(VpsStatus::Error)
        } else {
            None
        }
    }

    /// The status that a stored text stands for: the one it names once
    /// lower-cased, and `Error` where it names none.
    pub open spec fn of_stored(text: Seq<char>) -> VpsStatus {
        match VpsStatus::named(lowercase_text(text)) {
            Some(found) => found,
            None => VpsStatus::Error,
        }
    }

    /// Every stored form is made of lowercase letters and names its status.
    pub proof fn lemma_names(self)
        ensures
            all_lower_letters(self.name()),
            VpsStatus::named(self.name()) == Some(self),
    {
        reveal_strlit("running");
        reveal_strlit("starting");
        reveal_strlit("stopping");
        reveal_strlit("stopped");
        reveal_strlit("deleting");
        reveal_strlit("error");
        assert("running"@.len() == 7 && "running"@[0] == 'r' && "running"@[2] == 'n');
        assert("starting"@.len() == 8 && "starting"@[0] == 's' && "starting"@[2] == 'a');
        assert("stopping"@.len() == 8 && "stopping"@[0] == 's' && "stopping"@[2] == 'o');
        assert("stopped"@.len() == 7 && "stopped"@[0] == 's' && "stopped"@[2] == 'o');
        assert("deleting"@.len() == 8 && "deleting"@[0] == 'd' && "deleting"@[2] == 'l');
        assert("error"@.len() == 5 && "error"@[0] == 'e' && "error"@[2] == 'r');
    }

    /// The stored form of the status: its name in lowercase.
    pub fn as_str(&self) -> (name: &'static str)
        ensures
            name@ == self.name(),
    {
        match self {
            VpsStatus::Running => "running",
            VpsStatus::Starting => "starting",
            VpsStatus::Stopping => "stopping",
            VpsStatus::Stopped => "stopped",
            VpsStatus::Deleting => "deleting",
            VpsStatus::Error => "error",
        }
    }

    /// Reads a status from text, ignoring case. A text that names none is
    /// refused with a message that quotes it. The stored form of a status
    /// reads back as that status.
    pub fn from_str(s: &str) -> (parsed: Result<VpsStatus, String>)
        ensures
            match VpsStatus::named(lowercase_text(s@)) {
                Some(found) => parsed == Ok::<VpsStatus, String>(found),
                None => parsed is Err && parsed->Err_0@ == "Invalid VPS status: "@ + s@,
            },
            forall|legal: VpsStatus|
                s@ == legal.name() ==> parsed == Ok::<VpsStatus, String>(legal),
    {
        proof {
            assert forall|legal: VpsStatus| s@ == legal.name() implies all_lower_letters(s@)
                && VpsStatus::named(s@) == Some(legal) by {
                legal.lemma_names();
            }
        }
        let lower = lowercase(s);
        if text_is(lower.as_str(), "running") {
            Ok(VpsStatus::Running)
        } else if text_is(lower.as_str(), "starting") {
            Ok(VpsStatus::Starting)
        } else if text_is(lower.as_str(), "stopping") {
            Ok(VpsStatus::Stopping)
        } else if text_is(lower.as_str(), "stopped") {
            Ok(VpsStatus::Stopped)
        } else if text_is(lower.as_str(), "deleting") {
            Ok(VpsStatus::Deleting)
        } else if text_is(lower.as_str(), "error") {
            Ok(VpsStatus::Error)
        } else {
            Err(String::from_str("Invalid VPS status: ").concat(s))
        }
    }
}

impl std::str::FromStr for VpsStatus {
    type Err = String;

    fn from_str(s: &str) -> (parsed: Result<VpsStatus, String>)
        ensures
            match VpsStatus::named(lowercase_text(s@)) {
                Some(found) => parsed == Ok::<VpsStatus, String>(found),
                None => parsed is Err && parsed->Err_0@ == "Invalid VPS status: "@ + s@,
            },
            forall|legal: VpsStatus|
                s@ == legal.name() ==> parsed == Ok::<VpsStatus, String>(legal),
    {
        VpsStatus::from_str(s)
    }
}

/// The local record of a VPS instance: a cache of what the provider runs,
/// refreshed on demand.
#[derive(Debug, Clone, PartialEq, Eq)]
pub struct Vps {
    pub id: u128,
    /// The owner.
    pub user_id: u128,
    pub name: String,
    /// The provider's identifier of the instance; `None` while the record is
    /// linked to no instance.
    pub hetzner_id: Option<i64>,
    /// Stored form of a [`VpsStatus`], as the provider spelled it.
    pub status: String,
    pub server_type: String,
    pub location: String,
    pub image: String,
    pub ipv4: Option<String>,
    pub ipv6: Option<String>,
    pub cpu_cores: i32,
    pub ram_gb: i32,
    pub disk_gb: i32,
    /// Monthly gross price, as decimal text.
    pub monthly_cost: Option<String>,
    pub created_at: Timestamp,
    pub updated_at: Timestamp,
}

/// Mathematical value of a [`Vps`].
pub struct VpsView {
    pub id: u128,
    pub user_id: u128,
    pub name: Seq<char>,
    pub hetzner_id: Option<i64>,
    pub status: Seq<char>,
    pub server_type: Seq<char>,
    pub location: Seq<char>,
    pub image: Seq<char>,
    pub ipv4: Option<Seq<char>>,
    pub ipv6: Option<Seq<char>>,
    pub cpu_cores: i32,
    pub ram_gb: i32,
    pub disk_gb: i32,
    pub monthly_cost: Option<Seq<char>>,
    pub created_at: Timestamp,
    pub updated_at: Timestamp,
}

impl View for Vps {
    type V = VpsView;

    open spec fn view(&self) -> VpsView {
        VpsView {
            id: self.id,
            user_id: self.user_id,
            name: self.name@,
            hetzner_id: self.hetzner_id,
            status: self.status@,
            server_type: self.server_type@,
            location: self.location@,
            image: self.image@,
            ipv4: self.ipv4.deep_view(),
            ipv6: self.ipv6.deep_view(),
            cpu_cores: self.cpu_cores,
            ram_gb: self.ram_gb,
            disk_gb: self.disk_gb,
            monthly_cost: self.monthly_cost.deep_view(),
            created_at: self.created_at,
            updated_at: self.updated_at,
        }
    }
}

impl DeepView for Vps {
    type V = VpsView;

    open spec fn deep_view(&self) -> VpsView {
        self@
    }
}

impl Vps {
    /// The instance's status; a stored text that names no status counts as
    /// `Error`.
    pub fn get_status(&self) -> (status: VpsStatus)
        ensures
            status == VpsStatus::of_stored(self.status@),
            forall|legal: VpsStatus| self.status@ == legal.name() ==> status == legal,
    {
        match VpsStatus::from_str(self.status.as_str()) {
            Ok(status) => status,
            Err(_) => VpsStatus::Error,
        }
    }
}

/// What a user gives to have an instance created.
#[derive(Debug, Clone, PartialEq, Eq)]
pub struct CreateVps {
    pub name: String,
    pub server_type: String,
    pub location: String,
    pub image: String,
    pub ssh_keys: Option<Vec<String>>,
    pub user_data: Option<String>,
}

/// Mathematical value of a [`CreateVps`].
pub struct CreateVpsView {
    pub name: Seq<char>,
    pub server_type: Seq<char>,
    pub location: Seq<char>,
    pub image: Seq<char>,
    pub ssh_keys: Option<Seq<Seq<char>>>,
    pub user_data: Option<Seq<char>>,
}

impl View for CreateVps {
    type V = CreateVpsView;

    open spec fn view(&self) -> CreateVpsView {
        CreateVpsView {
            name: self.name@,
            server_type: self.server_type@,
            location: self.location@,
            image: self.image@,
            ssh_keys: self.ssh_keys.deep_view(),
            user_data: self.user_data.deep_view(),
        }
    }
}

/// The fields of a VPS record that an update may replace; `None` keeps a
/// field.
#[derive(Debug, Clone, PartialEq, Eq)]
pub struct UpdateVps {
    pub name: Option<String>,
    pub status: Option<VpsStatus>,
}

/// Mathematical value of an [`UpdateVps`].
pub struct UpdateVpsView {
    pub name: Option<Seq<char>>,
    pub status: Option<VpsStatus>,
}

impl View for UpdateVps {
    type V = UpdateVpsView;

    open spec fn view(&self) -> UpdateVpsView {
        UpdateVpsView {
            name: self.name.deep_view(),
            status: self.status,
        }
    }
}

/// An instance's public IPv4 address.
#[derive(Debug, Clone, PartialEq, Eq)]
pub struct HetznerIpv4 {
    pub ip: String,
}

/// Mathematical value of a [`HetznerIpv4`].
pub struct HetznerIpv4View {
    pub ip: Seq<char>,
}

impl View for HetznerIpv4 {
    type V = HetznerIpv4View;

    open spec fn view(&self) -> HetznerIpv4View {
        HetznerIpv4View {
            ip: self.ip@,
        }
    }
}

impl DeepView for HetznerIpv4 {
    type V = HetznerIpv4View;

    open spec fn deep_view(&self) -> HetznerIpv4View {
        self@
    }
}

/// An instance's public IPv6 network.
#[derive(Debug, Clone, PartialEq, Eq)]
pub struct HetznerIpv6 {
    pub ip: String,
}

/// Mathematical value of a [`HetznerIpv6`].
pub struct HetznerIpv6View {
    pub ip: Seq<char>,
}

impl View for HetznerIpv6 {
    type V = HetznerIpv6View;

    open spec fn view(&self) -> HetznerIpv6View {
        HetznerIpv6View {
            ip: self.ip@,
        }
    }
}

impl DeepView for HetznerIpv6 {
    type V = HetznerIpv6View;

    open spec fn deep_view(&self) -> HetznerIpv6View {
        self@
    }
}

/// Public addresses of an instance; each is absent until assigned.
#[derive(Debug, Clone, PartialEq, Eq)]
pub struct HetznerPublicNet {
    pub ipv4: Option<HetznerIpv4>,
    pub ipv6: Option<HetznerIpv6>,
}

/// Mathematical value of a [`HetznerPublicNet`].
pub struct HetznerPublicNetView {
    pub ipv4: Option<HetznerIpv4View>,
    pub ipv6: Option<HetznerIpv6View>,
}

impl View for HetznerPublicNet {
    type V = HetznerPublicNetView;

    open spec fn view(&self) -> HetznerPublicNetView {
        HetznerPublicNetView {
            ipv4: self.ipv4.deep_view(),
            ipv6: self.ipv6.deep_view(),
        }
    }
}

impl DeepView for HetznerPublicNet {
    type V = HetznerPublicNetView;

    open spec fn deep_view(&self) -> HetznerPublicNetView {
        self@
    }
}

/// A price before and after tax, as decimal text.
#[derive(Debug, Clone, PartialEq, Eq)]
pub struct HetznerPriceDetails {
    pub gross: String,
    pub net: String,
}

/// Mathematical value of a [`HetznerPriceDetails`].
pub struct HetznerPriceDetailsView {
    pub gross: Seq<char>,
    pub net: Seq<char>,
}

impl View for HetznerPriceDetails {
    type V = HetznerPriceDetailsView;

    open spec fn view(&self) -> HetznerPriceDetailsView {
        HetznerPriceDetailsView {
            gross: self.gross@,
            net: self.net@,
        }
    }
}

impl DeepView for HetznerPriceDetails {
    type V = HetznerPriceDetailsView;

    open spec fn deep_view(&self) -> HetznerPriceDetailsView {
        self@
    }
}

/// The monthly price of an instance type at one location.
#[derive(Debug, Clone, PartialEq, Eq)]
pub struct HetznerPrice {
    pub location: String,
    pub price_monthly: HetznerPriceDetails,
}

/// Mathematical value of a [`HetznerPrice`].
pub struct HetznerPriceView {
    pub location: Seq<char>,
    pub price_monthly: HetznerPriceDetailsView,
}

impl View for HetznerPrice {
    type V = HetznerPriceView;

    open spec fn view(&self) -> HetznerPriceView {
        HetznerPriceView {
            location: self.location@,
            price_monthly: self.price_monthly@,
        }
    }
}

impl DeepView for HetznerPrice {
    type V = HetznerPriceView;

    open spec fn deep_view(&self) -> HetznerPriceView {
        self@
    }
}

/// The sizing of an instance.
#[derive(Debug, Clone, PartialEq, Eq)]
pub struct HetznerServerType {
    pub name: String,
    pub cores: i32,
    /// Memory as the provider reports it, cut to a whole number.
    pub memory: i64,
    pub disk: i32,
    pub prices: Vec<HetznerPrice>,
}

/// Mathematical value of a [`HetznerServerType`].
pub struct HetznerServerTypeView {
    pub name: Seq<char>,
    pub cores: i32,
    pub memory: i64,
    pub disk: i32,
    pub prices: Seq<HetznerPriceView>,
}

impl View for HetznerServerType {
    type V = HetznerServerTypeView;

    open spec fn view(&self) -> HetznerServerTypeView {
        HetznerServerTypeView {
            name: self.name@,
            cores: self.cores,
            memory: self.memory,
            disk: self.disk,
            prices: self.prices.deep_view(),
        }
    }
}

impl DeepView for HetznerServerType {
    type V = HetznerServerTypeView;

    open spec fn deep_view(&self) -> HetznerServerTypeView {
        self@
    }
}

/// Where a datacenter stands.
#[derive(Debug, Clone, PartialEq, Eq)]
pub struct HetznerLocation {
    pub name: String,
    pub city: String,
    pub country: String,
}

/// Mathematical value of a [`HetznerLocation`].
pub struct HetznerLocationView {
    pub name: Seq<char>,
    pub city: Seq<char>,
    pub country: Seq<char>,
}

impl View for HetznerLocation {
    type V = HetznerLocationView;

    open spec fn view(&self) -> HetznerLocationView {
        HetznerLocationView {
            name: self.name@,
            city: self.city@,
            country: self.country@,
        }
    }
}

impl DeepView for HetznerLocation {
    type V = HetznerLocationView;

    open spec fn deep_view(&self) -> HetznerLocationView {
        self@
    }
}

/// The datacenter that hosts an instance.
#[derive(Debug, Clone, PartialEq, Eq)]
pub struct HetznerDatacenter {
    pub name: String,
    pub location: HetznerLocation,
}

/// Mathematical value of a [`HetznerDatacenter`].
pub struct HetznerDatacenterView {
    pub name: Seq<char>,
    pub location: HetznerLocationView,
}

impl View for HetznerDatacenter {
    type V = HetznerDatacenterView;

    open spec fn view(&self) -> HetznerDatacenterView {
        HetznerDatacenterView {
            name: self.name@,
            location: self.location@,
        }
    }
}

impl DeepView for HetznerDatacenter {
    type V = HetznerDatacenterView;

    open spec fn deep_view(&self) -> HetznerDatacenterView {
        self@
    }
}

/// The operating system image of an instance.
#[derive(Debug, Clone, PartialEq, Eq)]
pub struct HetznerImage {
    pub name: String,
    pub description: String,
}

/// Mathematical value of a [`HetznerImage`].
pub struct HetznerImageView {
    pub name: Seq<char>,
    pub description: Seq<char>,
}

impl View for HetznerImage {
    type V = HetznerImageView;

    open spec fn view(&self) -> HetznerImageView {
        HetznerImageView {
            name: self.name@,
            description: self.description@,
        }
    }
}

impl DeepView for HetznerImage {
    type V = HetznerImageView;

    open spec fn deep_view(&self) -> HetznerImageView {
        self@
    }
}

/// The provider's descriptor of an instance.
#[derive(Debug, Clone, PartialEq, Eq)]
pub struct HetznerServer {
    pub id: i64,
    pub name: String,
    pub status: String,
    pub public_net: HetznerPublicNet,
    pub server_type: HetznerServerType,
    pub datacenter: HetznerDatacenter,
    pub image: HetznerImage,
    pub created: String,
}

/// Mathematical value of a [`HetznerServer`].
pub struct HetznerServerView {
    pub id: i64,
    pub name: Seq<char>,
    pub status: Seq<char>,
    pub public_net: HetznerPublicNetView,
    pub server_type: HetznerServerTypeView,
    pub datacenter: HetznerDatacenterView,
    pub image: HetznerImageView,
    pub created: Seq<char>,
}

impl View for HetznerServer {
    type V = HetznerServerView;

    open spec fn view(&self) -> HetznerServerView {
        HetznerServerView {
            id: self.id,
            name: self.name@,
            status: self.status@,
            public_net: self.public_net@,
            server_type: self.server_type@,
            datacenter: self.datacenter@,
            image: self.image@,
            created: self.created@,
        }
    }
}

impl DeepView for HetznerServer {
    type V = HetznerServerView;

    open spec fn deep_view(&self) -> HetznerServerView {
        self@
    }
}

/// Body of the provider's create call.
#[derive(Debug, Clone, PartialEq, Eq)]
pub struct HetznerCreateServerRequest {
    pub name: String,
    pub server_type: String,
    pub location: String,
    pub image: String,
    /// Left out of the body when `None`.
    pub ssh_keys: Option<Vec<String>>,
    /// Left out of the body when `None`.
    pub user_data: Option<String>,
    pub start_after_create: bool,
}

/// Mathematical value of a [`HetznerCreateServerRequest`].
pub struct HetznerCreateServerRequestView {
    pub name: Seq<char>,
    pub server_type: Seq<char>,
    pub location: Seq<char>,
    pub image: Seq<char>,
    pub ssh_keys: Option<Seq<Seq<char>>>,
    pub user_data: Option<Seq<char>>,
    pub start_after_create: bool,
}

impl View for HetznerCreateServerRequest {
    type V = HetznerCreateServerRequestView;

    open spec fn view(&self) -> HetznerCreateServerRequestView {
        HetznerCreateServerRequestView {
            name: self.name@,
            server_type: self.server_type@,
            location: self.location@,
            image: self.image@,
            ssh_keys: self.ssh_keys.deep_view(),
            user_data: self.user_data.deep_view(),
            start_after_create: self.start_after_create,
        }
    }
}

impl DeepView for HetznerCreateServerRequest {
    type V = HetznerCreateServerRequestView;

    open spec fn deep_view(&self) -> HetznerCreateServerRequestView {
        self@
    }
}

} // verus!
