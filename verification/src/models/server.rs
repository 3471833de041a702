//! Servers: host records that users describe to the panel.

use crate::clock::Timestamp;
use crate::text::{all_lower_letters, lowercase, lowercase_text, text_is};
use vstd::prelude::*;
use vstd::string::*;

verus! {

/// State of a server, as the panel last recorded it.
#[derive(Debug, Clone, Copy, PartialEq, Eq)]
pub enum ServerStatus {
    Online,
    Offline,
    Maintenance,
    Provisioning,
    Error,
}

impl ServerStatus {
    /// The stored form of the status.
    pub open spec fn name(self) -> Seq<char> {
        match self {
            ServerStatus::Online => "online"@,
            ServerStatus::Offline => "offline"@,
            ServerStatus::Maintenance => "maintenance"@,
            ServerStatus::Provisioning => "provisioning"@,
            ServerStatus::Error => "error"@,
        }
    }

    /// The status whose stored form is `text`, if there is one.
    pub open spec fn named(text: Seq<char>) -> Option<ServerStatus> {
        if text == "online"@ {
            Some(ServerStatus::Online)
        } else if text == "offline"@ {
            Some(ServerStatus::Offline)
        } else if text == "maintenance"@ {
            Some(ServerStatus::Maintenance)
        } else if text == "provisioning"@ {
            Some(ServerStatus::Provisioning)
        } else if text == "error"@ {
            Some(ServerStatus::Error)
        } else {
            None
        }
    }

    /// The status that a stored text stands for: the one it names once
    /// lower-cased, and `Offline` where it names none.
    pub open spec fn of_stored(text: Seq<char>) -> ServerStatus {
        match ServerStatus::named(lowercase_text(text)) {
            Some(found) => found,
            None => ServerStatus::Offline,
        }
    }

    /// Every stored form is made of lowercase letters and names its status.
    pub proof fn lemma_names(self)
        ensures
            all_lower_letters(self.name()),
            ServerStatus::named(self.name()) == Some(self),
    {
        reveal_strlit("online");
        reveal_strlit("offline");
        reveal_strlit("maintenance");
        reveal_strlit("provisioning");
        reveal_strlit("error");
        assert("online"@.len() == 6 && "online"@[0] == 'o' && "online"@[2] == 'l');
        assert("offline"@.len() == 7 && "offline"@[0] == 'o' && "offline"@[2] == 'f');
        assert("maintenance"@.len() == 11 && "maintenance"@[0] == 'm' && "maintenance"@[2] == 'i');
        assert("provisioning"@.len() == 12 && "provisioning"@[0] == 'p' && "provisioning"@[2]
            == 'o');
        assert("error"@.len() == 5 && "error"@[0] == 'e' && "error"@[2] == 'r');
    }

    /// The stored form of the status: its name in lowercase.
    pub fn as_str(&self) -> (name: &'static str)
        ensures
            name@ == self.name(),
    {
        match self {
            ServerStatus::Online => "online",
            ServerStatus::Offline => "offline",
            ServerStatus::Maintenance => "maintenance",
            ServerStatus::Provisioning => "provisioning",
            ServerStatus::Error => "error",
        }
    }

    /// Reads a status from text, ignoring case. A text that names none is
    /// refused with a message that quotes it. The stored form of a status
    /// reads back as that status.
    pub fn from_str(s: &str) -> (parsed: Result<ServerStatus, String>)
        ensures
            match ServerStatus::named(lowercase_text(s@)) {
                Some(found) => parsed == Ok::<ServerStatus, String>(found),
                None => parsed is Err && parsed->Err_0@ == "Invalid server status: "@ + s@,
            },
            forall|legal: ServerStatus|
                s@ == legal.name() ==> parsed == Ok::<ServerStatus, String>(legal),
    {
        proof {
            assert forall|legal: ServerStatus| s@ == legal.name() implies all_lower_letters(s@)
                && ServerStatus::named(s@) == Some(legal) by {
                legal.lemma_names();
            }
        }
        let lower = lowercase(s);
        if text_is(lower.as_str(), "online") {
            Ok(ServerStatus::Online)
        } else if text_is(lower.as_str(), "offline") {
            Ok(ServerStatus::Offline)
        } else if text_is(lower.as_str(), "maintenance") {
            Ok(ServerStatus::Maintenance)
        } else if text_is(lower.as_str(), "provisioning") {
            Ok(ServerStatus::Provisioning)
        } else if text_is(lower.as_str(), "error") {
            Ok(ServerStatus::Error)
        } else {
            Err(String::from_str("Invalid server status: ").concat(s))
        }
    }
}

impl std::str::FromStr for ServerStatus {
    type Err = String;

    fn from_str(s: &str) -> (parsed: Result<ServerStatus, String>)
        ensures
            match ServerStatus::named(lowercase_text(s@)) {
                Some(found) => parsed == Ok::<ServerStatus, String>(found),
                None => parsed is Err && parsed->Err_0@ == "Invalid server status: "@ + s@,
            },
            forall|legal: ServerStatus|
                s@ == legal.name() ==> parsed == Ok::<ServerStatus, String>(legal),
    {
        ServerStatus::from_str(s)
    }
}

/// A server record, as stored. The panel describes servers; it does not run
/// them.
#[derive(Debug, Clone, PartialEq, Eq)]
pub struct Server {
    pub id: u128,
    /// The owner.
    pub user_id: u128,
    pub name: String,
    pub hostname: String,
    pub ip_address: String,
    /// Stored form of a [`ServerStatus`].
    pub status: String,
    pub server_type: String,
    pub location: Option<String>,
    pub cpu_cores: Option<i32>,
    pub ram_gb: Option<i32>,
    pub disk_gb: Option<i32>,
    pub os: Option<String>,
    pub created_at: Timestamp,
    pub updated_at: Timestamp,
}

/// Mathematical value of a [`Server`].
pub struct ServerView {
    pub id: u128,
    pub user_id: u128,
    pub name: Seq<char>,
    pub hostname: Seq<char>,
    pub ip_address: Seq<char>,
    pub status: Seq<char>,
    pub server_type: Seq<char>,
    pub location: Option<Seq<char>>,
    pub cpu_cores: Option<i32>,
    pub ram_gb: Option<i32>,
    pub disk_gb: Option<i32>,
    pub os: Option<Seq<char>>,
    pub created_at: Timestamp,
    pub updated_at: Timestamp,
}

impl View for Server {
    type V = ServerView;

    open spec fn view(&self) -> ServerView {
        ServerView {
            id: self.id,
            user_id: self.user_id,
            name: self.name@,
            hostname: self.hostname@,
            ip_address: self.ip_address@,
            status: self.status@,
            server_type: self.server_type@,
            location: self.location.deep_view(),
            cpu_cores: self.cpu_cores,
            ram_gb: self.ram_gb,
            disk_gb: self.disk_gb,
            os: self.os.deep_view(),
            created_at: self.created_at,
            updated_at: self.updated_at,
        }
    }
}

impl DeepView for Server {
    type V = ServerView;

    open spec fn deep_view(&self) -> ServerView {
        self@
    }
}

impl Server {
    /// The server's status; a stored text that names no status counts as
    /// `Offline`.
    pub fn get_status(&self) -> (status: ServerStatus)
        ensures
            status == ServerStatus::of_stored(self.status@),
            forall|legal: ServerStatus| self.status@ == legal.name() ==> status == legal,
    {
        match ServerStatus::from_str(self.status.as_str()) {
            Ok(status) => status,
            Err(_) => ServerStatus::Offline,
        }
    }
}

/// What a user gives to have a server recorded.
#[derive(Debug, Clone, PartialEq, Eq)]
pub struct CreateServer {
    pub name: String,
    pub hostname: String,
    pub ip_address: String,
    pub server_type: String,
    pub location: Option<String>,
    pub cpu_cores: Option<i32>,
    pub ram_gb: Option<i32>,
    pub disk_gb: Option<i32>,
    pub os: Option<String>,
}

/// Mathematical value of a [`CreateServer`].
pub struct CreateServerView {
    pub name: Seq<char>,
    pub hostname: Seq<char>,
    pub ip_address: Seq<char>,
    pub server_type: Seq<char>,
    pub location: Option<Seq<char>>,
    pub cpu_cores: Option<i32>,
    pub ram_gb: Option<i32>,
    pub disk_gb: Option<i32>,
    pub os: Option<Seq<char>>,
}

impl View for CreateServer {
    type V = CreateServerView;

    open spec fn view(&self) -> CreateServerView {
        CreateServerView {
            name: self.name@,
            hostname: self.hostname@,
            ip_address: self.ip_address@,
            server_type: self.server_type@,
            location: self.location.deep_view(),
            cpu_cores: self.cpu_cores,
            ram_gb: self.ram_gb,
            disk_gb: self.disk_gb,
            os: self.os.deep_view(),
        }
    }
}

/// The fields of a server that an update may replace; `None` keeps a field.
#[derive(Debug, Clone, PartialEq, Eq)]
pub struct UpdateServer {
    pub name: Option<String>,
    pub hostname: Option<String>,
    pub ip_address: Option<String>,
    pub status: Option<ServerStatus>,
    pub location: Option<String>,
    pub cpu_cores: Option<i32>,
    pub ram_gb: Option<i32>,
    pub disk_gb: Option<i32>,
    pub os: Option<String>,
}

/// Mathematical value of an [`UpdateServer`].
pub struct UpdateServerView {
    pub name: Option<Seq<char>>,
    pub hostname: Option<Seq<char>>,
    pub ip_address: Option<Seq<char>>,
    pub status: Option<ServerStatus>,
    pub location: Option<Seq<char>>,
    pub cpu_cores: Option<i32>,
    pub ram_gb: Option<i32>,
    pub disk_gb: Option<i32>,
    pub os: Option<Seq<char>>,
}

impl View for UpdateServer {
    type V = UpdateServerView;

    open spec fn view(&self) -> UpdateServerView {
        UpdateServerView {
            name: self.name.deep_view(),
            hostname: self.hostname.deep_view(),
            ip_address: self.ip_address.deep_view(),
            status: self.status,
            location: self.location.deep_view(),
            cpu_cores: self.cpu_cores,
            ram_gb: self.ram_gb,
            disk_gb: self.disk_gb,
            os: self.os.deep_view(),
        }
    }
}

} // verus!
