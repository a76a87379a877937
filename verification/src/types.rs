//! The records that the account service and the servers send.

use vstd::prelude::*;
use crate::errors::InternalClientError;
use crate::text::str_eq;

verus! {

/// One concrete network path to a resource.
#[derive(Debug, Default, Clone)]
pub struct Connection {
    pub protocol: String,
    pub address: String,
    pub port: u32,
    pub uri: String,
    pub local: bool,
    pub relay: bool,
    pub ipv6: bool,
}

#[derive(Debug, Default)]
pub struct PinLocation {
    pub code: String,
    pub country: String,
    pub city: String,
    pub subdivisions: String,
    pub coordinates: String,
}

/// A linking PIN as the service creates it.
#[derive(Debug, Default)]
pub struct CreatePinResponse {
    pub id: u32,
    pub code: String,
    pub product: String,
    pub trusted: bool,
    pub origin: Option<String>,
    pub client_identifier: String,
    pub location: PinLocation,
    pub created_at: String,
    pub expires_at: String,
    pub expires_in: u32,
}

/// The status of a PIN at one poll. It carries a token once the user has
/// confirmed the link.
#[derive(Debug, Default)]
pub struct PinInfo {
    pub id: u32,
    pub code: String,
    pub product: String,
    pub trusted: bool,
    pub origin: Option<String>,
    pub client_identifier: String,
    pub location: PinLocation,
    pub created_at: String,
    pub expires_at: String,
    pub expires_in: u32,
    pub auth_token: Option<String>,
    pub new_registration: Option<bool>,
}

/// A capability that a resource provides.
#[derive(Debug, Clone, Copy, PartialEq, Eq, Structural)]
pub enum Service {
    Server,
    Client,
    Player,
    PubSubPlayer,
    Controller,
    SyncTarget,
    ProviderPlayback,
}

impl Service {
    /// The name of the capability on the wire.
    pub open spec fn spec_name(self) -> Seq<char> {
        match self {
            Service::Server => "server"@,
            Service::Client => "client"@,
            Service::Player => "player"@,
            Service::PubSubPlayer => "pubsub-player"@,
            Service::Controller => "controller"@,
            Service::SyncTarget => "sync-target"@,
            Service::ProviderPlayback => "provider-playback"@,
        }
    }

    /// Whether some capability has this wire name.
    pub open spec fn is_name(s: Seq<char>) -> bool {
        exists|v: Service| #[trigger] v.spec_name() == s
    }

    /// The name of the capability on the wire.
    pub fn name(&self) -> (s: &'static str)
        ensures
            s@ == self.spec_name(),
    {
        match self {
            Service::Server => "server",
            Service::Client => "client",
            Service::Player => "player",
            Service::PubSubPlayer => "pubsub-player",
            Service::Controller => "controller",
            Service::SyncTarget => "sync-target",
            Service::ProviderPlayback => "provider-playback",
        }
    }

    /// Reads a capability from its wire name. Any other text is handed back
    /// in the error.
    pub fn parse(s: &str) -> (r: Result<Service, InternalClientError>)
        ensures
            r is Ok <==> Self::is_name(s@),
            r matches Ok(v) ==> v.spec_name() == s@,
            r matches Err(InternalClientError::UnparseableService(t)) ==> t@ == s@,
    {
        let found = if str_eq(s, "server") {
            Some(Service::Server)
        } else if str_eq(s, "client") {
            Some(Service::Client)
        } else if str_eq(s, "player") {
            Some(Service::Player)
        } else if str_eq(s, "pubsub-player") {
            Some(Service::PubSubPlayer)
        } else if str_eq(s, "controller") {
            Some(Service::Controller)
        } else if str_eq(s, "sync-target") {
            Some(Service::SyncTarget)
        } else if str_eq(s, "provider-playback") {
            Some(Service::ProviderPlayback)
        } else {
            None
        };
        match found {
            Some(v) => {
                assert(v.spec_name() == s@);
                Ok(v)
            },
            None => {
                assert forall|v: Service| #[trigger] v.spec_name() != s@ by {}
                Err(InternalClientError::UnparseableService(String::from_str(s)))
            },
        }
    }
}

/// No two capabilities share a wire name.
pub proof fn lemma_service_name_injective(a: Service, b: Service)
    requires
        a.spec_name() == b.spec_name(),
    ensures
        a == b,
{
    reveal_strlit("server");
    reveal_strlit("client");
    reveal_strlit("player");
    reveal_strlit("pubsub-player");
    reveal_strlit("controller");
    reveal_strlit("sync-target");
    reveal_strlit("provider-playback");
    assert("client"@.len() == 6 && "client"@[0] == 'c');
    assert("player"@.len() == 6 && "player"@[0] == 'p');
    assert("pubsub-player"@.len() == 13);
    assert("controller"@.len() == 10);
    assert("sync-target"@.len() == 11);
    assert("provider-playback"@.len() == 17);
}

impl core::str::FromStr for Service {
    type Err = InternalClientError;

    fn from_str(s: &str) -> (r: Result<Self, InternalClientError>)
        ensures
            r is Ok <==> Service::is_name(s@),
            r matches Ok(v) ==> v.spec_name() == s@,
            r matches Err(InternalClientError::UnparseableService(t)) ==> t@ == s@,
    {
        Service::parse(s)
    }
}

/// A device or server that the account service lists.
#[derive(Debug, Default, Clone)]
pub struct Resource {
    pub name: String,
    pub product: String,
    pub product_version: String,
    pub platform: String,
    pub platform_version: String,
    pub device: Option<String>,
    pub client_identifier: String,
    pub created_at: String,
    pub last_seen_at: String,
    pub provides: Vec<Service>,
    pub source_title: Option<String>,
    pub public_address: String,
    pub access_token: Option<String>,
    pub connections: Vec<Connection>,
}

#[derive(Debug, Default)]
pub struct Subscription {
    pub active: bool,
    pub subscribed_at: Option<String>,
    pub status: String,
    pub plan: String,
    pub payment_service: Option<String>,
    pub features: Vec<String>,
}

#[derive(Debug, Default)]
pub struct Subscription2 {
    pub type_: String,
    pub state: String,
    pub mode: String,
}

#[derive(Debug, Default)]
pub struct Profile {
    pub auto_select_audio: bool,
    pub default_audio_language: Option<String>,
    pub default_subtitle_language: Option<String>,
    pub auto_select_subtitle: u32,
    pub default_subtitle_accessibility: u32,
    pub default_subtitle_forced: u32,
}

/// The profile and entitlements of the account that a token belongs to.
#[derive(Debug, Default)]
pub struct User {
    pub ads_consent: bool,
    pub ads_consent_reminder_at: u64,
    pub ads_consent_set_at: u64,
    pub anonymous: Option<bool>,
    pub auth_token: String,
    pub backup_codes_created: bool,
    pub certificate_version: u32,
    pub confirmed: bool,
    pub country: String,
    pub email: Option<String>,
    pub email_only_auth: bool,
    pub entitlements: Vec<String>,
    pub experimental_features: bool,
    pub guest: bool,
    pub has_password: bool,
    pub home: bool,
    pub home_admin: bool,
    pub home_size: u32,
    pub id: u64,
    pub locale: Option<String>,
    pub mailing_list_active: bool,
    pub mailing_list_status: String,
    pub max_home_size: u32,
    pub profile: Profile,
    pub protected: bool,
    pub remember_expires_at: u64,
    pub restricted: bool,
    pub roles: Vec<String>,
    pub scrobble_types: String,
    pub subscription: Subscription,
    pub subscription_description: String,
    pub thumb: String,
    pub title: String,
    pub two_factor_enabled: bool,
    pub username: String,
    pub uuid: String,
}

#[derive(Default, Debug, Clone, PartialEq)]
pub struct MediaContainerRoot {
    pub media_container: MediaContainer,
}

#[derive(Default, Debug, Clone, PartialEq)]
pub struct MediaContainer {
    pub size: i32,
    pub allow_camera_upload: bool,
    pub allow_channel_access: bool,
    pub allow_media_deletion: bool,
    pub allow_sharing: bool,
    pub allow_sync: bool,
    pub allow_tuners: bool,
    pub audiobook: i32,
    pub background_processing: bool,
    pub certificate: bool,
    pub companion_proxy: bool,
    pub country_code: String,
    pub diagnostics: String,
    pub event_stream: bool,
    pub friendly_name: String,
    pub livetv: i32,
    pub machine_identifier: String,
    pub music_analysis: i32,
    pub my_plex: bool,
    pub my_plex_mapping_state: String,
    pub my_plex_signin_state: String,
    pub my_plex_subscription: bool,
    pub my_plex_username: String,
    pub offline_transcode: i32,
    pub owner_features: String,
    pub photo_auto_tag: bool,
    pub platform: String,
    pub platform_version: String,
    pub plugin_host: bool,
    pub push_notifications: bool,
    pub read_only_libraries: bool,
    pub streaming_brain_abrversion: i32,
    pub streaming_brain_version: i32,
    pub sync: bool,
    pub transcoder_active_video_sessions: i32,
    pub transcoder_audio: bool,
    pub transcoder_lyrics: bool,
    pub transcoder_subtitles: bool,
    pub transcoder_video: bool,
    pub transcoder_video_bitrates: String,
    pub transcoder_video_qualities: String,
    pub transcoder_video_resolutions: String,
    pub updated_at: i32,
    pub updater: bool,
    pub version: String,
    pub voice_search: bool,
    pub media_provider: Vec<MediaProvider>,
}

#[derive(Default, Debug, Clone, PartialEq)]
pub struct MediaProvider {
    pub identifier: String,
    pub title: String,
    pub types: String,
    pub protocols: String,
    pub features: Vec<Feature>,
}

#[derive(Default, Debug, Clone, PartialEq)]
pub struct Feature {
    pub key: Option<String>,
    pub type_field: String,
    pub directory: Option<Vec<Directory>>,
    pub action: Vec<Action>,
    pub flavor: Option<String>,
    pub scrobble_key: Option<String>,
    pub unscrobble_key: Option<String>,
}

#[derive(Default, Debug, Clone, PartialEq)]
pub struct Directory {
    pub hub_key: Option<String>,
    pub title: String,
    pub agent: Option<String>,
    pub language: Option<String>,
    pub refreshing: Option<bool>,
    pub scanner: Option<String>,
    pub uuid: Option<String>,
    pub id: Option<String>,
    pub key: Option<String>,
    pub type_field: Option<String>,
    pub updated_at: Option<i32>,
    pub scanned_at: Option<i32>,
    pub pivot: Vec<Pivot>,
}

#[derive(Default, Debug, Clone, PartialEq)]
pub struct Pivot {
    pub id: String,
    pub key: String,
    pub type_field: String,
    pub title: String,
    pub context: String,
    pub symbol: String,
}

#[derive(Default, Debug, Clone, PartialEq)]
pub struct Action {
    pub id: String,
    pub key: String,
}

} // verus!
