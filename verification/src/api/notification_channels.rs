//! Notification channels: their secrets, their tests and the confirmation of mail
//! addresses.

use vstd::prelude::*;
use vstd::string::*;

use crate::codec::{hash_cookie_value, Id};
use crate::error::{bad_request, conflict, AppError};
use crate::text::{owned, same_text, trim_end_slashes};
use crate::time::{Moment, HOUR};

verus! {

/// How many hours a confirmation link is good for.
pub const VERIFICATION_TOKEN_HOURS: u32 = 24;

/// What sort of channel a channel is.
#[derive(Clone, Debug)]
pub enum ChannelKind {
    Email,
    Webhook,
    Slack,
    /// Any other, by its name.
    Other { name: String },
}

impl ChannelKind {
    /// The name of a sort of channel.
    pub open spec fn db_name(self) -> Seq<char> {
        match self {
            ChannelKind::Email => "email"@,
            ChannelKind::Webhook => "webhook"@,
            ChannelKind::Slack => "slack"@,
            ChannelKind::Other { name } => name@,
        }
    }

    /// The name of this sort of channel.
    pub fn as_db_str(&self) -> (r: &str)
        ensures
            r@ == self.db_name(),
    {
        match self {
            ChannelKind::Email => "email",
            ChannelKind::Webhook => "webhook",
            ChannelKind::Slack => "slack",
            ChannelKind::Other { name } => name.as_str(),
        }
    }
}

/// Where a channel leads. A mail address may be shown; the address of any other
/// channel is a secret.
#[derive(Clone, Debug)]
pub enum ChannelConfig {
    Email { to: String },
    Secret { url: String },
}

/// A way to tell operators of incidents.
#[derive(Clone, Debug)]
pub struct NotificationChannel {
    pub id: Id,
    pub name: String,
    pub kind: ChannelKind,
    pub config: ChannelConfig,
    pub enabled: bool,
    pub verified_at: Option<Moment>,
    /// Why the channel is not used, where that is known.
    pub disabled_reason: Option<String>,
}

/// What stands for a secret wherever a channel is shown.
pub open spec fn mask() -> Seq<char> {
    "********"@
}

/// A channel's address as it is shown.
pub open spec fn redacted(c: ChannelConfig, shown: ChannelConfig) -> bool {
    match c {
        ChannelConfig::Email { .. } => shown == c,
        ChannelConfig::Secret { .. } => shown matches ChannelConfig::Secret { url } && url@
            == mask(),
    }
}

/// A channel as it is shown: its secret is masked, and nothing else is changed.
pub open spec fn shown_as(c: NotificationChannel, r: NotificationChannel) -> bool {
    &&& redacted(c.config, r.config)
    &&& r == (NotificationChannel { config: r.config, ..c })
}

/// Masks the secret of a channel's address.
pub fn redact(config: ChannelConfig) -> (r: ChannelConfig)
    ensures
        redacted(config, r),
{
    match config {
        ChannelConfig::Email { to } => ChannelConfig::Email { to },
        ChannelConfig::Secret { url: _ } => ChannelConfig::Secret { url: owned("********") },
    }
}

/// A channel as it is shown.
pub fn get_channel(channel: NotificationChannel) -> (r: NotificationChannel)
    ensures
        shown_as(channel, r),
{
    NotificationChannel {
        id: channel.id,
        name: channel.name,
        kind: channel.kind,
        config: redact(channel.config),
        enabled: channel.enabled,
        verified_at: channel.verified_at,
        disabled_reason: channel.disabled_reason,
    }
}

/// Channels as they are shown, in order.
pub fn list_channels(channels: Vec<NotificationChannel>) -> (r: Vec<NotificationChannel>)
    ensures
        r@.len() == channels@.len(),
        forall|i: int| 0 <= i < r@.len() ==> shown_as(channels@[i], #[trigger] r@[i]),
{
    let ghost all = channels@;
    let mut rest = channels;
    let mut out: Vec<NotificationChannel> = Vec::new();
    while rest.len() > 0
        invariant
            out@.len() + rest@.len() == all.len(),
            rest@ == all.skip(out@.len() as int),
            forall|i: int| 0 <= i < out@.len() ==> shown_as(all[i], #[trigger] out@[i]),
        decreases rest.len(),
    {
        let c = rest.remove(0);
        assert(c == all[out@.len() as int]);
        out.push(get_channel(c));
        assert(rest@ =~= all.skip(out@.len() as int));
    }
    out
}

/// The address that a channel gets when `submitted` is sent in: a mask that comes
/// back stands for the secret that it hides.
pub open spec fn merged_config(stored: ChannelConfig, submitted: ChannelConfig) -> ChannelConfig {
    match submitted {
        ChannelConfig::Secret { url } => if url@ == mask() && stored is Secret {
            stored
        } else {
            submitted
        },
        ChannelConfig::Email { .. } => submitted,
    }
}

/// The address that a channel gets when `submitted` is sent in.
pub fn merge_config(stored: ChannelConfig, submitted: ChannelConfig) -> (r: ChannelConfig)
    ensures
        r == merged_config(stored, submitted),
{
    let keep = match (&submitted, &stored) {
        (ChannelConfig::Secret { url }, ChannelConfig::Secret { .. }) => same_text(
            url.as_str(),
            "********",
        ),
        _ => false,
    };
    if keep {
        stored
    } else {
        submitted
    }
}

/// Sending in what was shown changes nothing: the secret behind a mask is kept.
pub proof fn law_masked_addresses_round_trip(stored: ChannelConfig, shown: ChannelConfig)
    requires
        redacted(stored, shown),
    ensures
        merged_config(stored, shown) == stored,
{
}

/// What is shown of a channel does not depend on its secret.
pub proof fn law_secrets_are_not_shown(
    a: ChannelConfig,
    b: ChannelConfig,
    shown_a: ChannelConfig,
    shown_b: ChannelConfig,
)
    requires
        a is Secret,
        b is Secret,
        redacted(a, shown_a),
        redacted(b, shown_b),
    ensures
        shown_a->url@ == shown_b->url@,
        shown_a is Secret && shown_b is Secret,
{
}

/// Whether a channel may be made or changed, given what is wrong with its name and
/// with its address; of two faults, that of the name is told. What is not to be
/// changed has no fault.
pub fn check_channel(name_check: Result<(), String>, config_check: Result<(), String>) -> (r:
    Result<(), AppError>)
    ensures
        match r {
            Ok(_) => name_check is Ok && config_check is Ok,
            Err(e) => match name_check {
                Err(reason) => crate::error::is_bad_request(e, "INVALID_CHANNEL_NAME"@, reason@),
                Ok(_) => config_check matches Err(reason) && crate::error::is_bad_request(
                    e,
                    "INVALID_CHANNEL_CONFIG"@,
                    reason@,
                ),
            },
        },
{
    match name_check {
        Err(reason) => Err(bad_request("INVALID_CHANNEL_NAME", reason)),
        Ok(_) => match config_check {
            Err(reason) => Err(bad_request("INVALID_CHANNEL_CONFIG", reason)),
            Ok(_) => Ok(()),
        },
    }
}

/// What to change of a channel; `None` leaves a member as it is.
#[derive(Clone, Debug)]
pub struct NotificationChannelUpdate {
    pub name: Option<String>,
    pub config: Option<ChannelConfig>,
    pub enabled: Option<bool>,
}

/// A channel with what `update` says changed.
pub open spec fn updated_channel(
    c: NotificationChannel,
    update: NotificationChannelUpdate,
) -> NotificationChannel {
    NotificationChannel {
        name: match update.name {
            Some(v) => v,
            None => c.name,
        },
        config: match update.config {
            Some(v) => merged_config(c.config, v),
            None => c.config,
        },
        enabled: match update.enabled {
            Some(v) => v,
            None => c.enabled,
        },
        ..c
    }
}

/// Changes a channel, given what is wrong with the new name and the new address. A
/// masked address stands for the one that is kept.
pub fn update_channel(
    channel: NotificationChannel,
    update: NotificationChannelUpdate,
    name_check: Result<(), String>,
    config_check: Result<(), String>,
) -> (r: Result<NotificationChannel, AppError>)
    ensures
        match r {
            Ok(c) => {
                &&& update.name is Some ==> name_check is Ok
                &&& update.config is Some ==> config_check is Ok
                &&& c == updated_channel(channel, update)
            },
            Err(e) => if update.name is Some && name_check is Err {
                name_check matches Err(reason) && crate::error::is_bad_request(
                    e,
                    "INVALID_CHANNEL_NAME"@,
                    reason@,
                )
            } else {
                update.config is Some && (config_check matches Err(reason)
                    && crate::error::is_bad_request(e, "INVALID_CHANNEL_CONFIG"@, reason@))
            },
        },
{
    let name_fault = if update.name.is_some() {
        name_check
    } else {
        Ok(())
    };
    let config_fault = if update.config.is_some() {
        config_check
    } else {
        Ok(())
    };
    match check_channel(name_fault, config_fault) {
        Err(e) => Err(e),
        Ok(_) => Ok(
            NotificationChannel {
                id: channel.id,
                name: match update.name {
                    Some(v) => v,
                    None => channel.name,
                },
                kind: channel.kind,
                config: match update.config {
                    Some(v) => merge_config(channel.config, v),
                    None => channel.config,
                },
                enabled: match update.enabled {
                    Some(v) => v,
                    None => channel.enabled,
                },
                verified_at: channel.verified_at,
                disabled_reason: channel.disabled_reason,
            },
        ),
    }
}

/// The channels that a target is still bound to once a channel is gone.
pub fn unbind_channel(alerts: Vec<Id>, channel_id: Id) -> (r: Vec<Id>)
    ensures
        r@ == alerts@.filter(|a: Id| a != channel_id),
        !r@.contains(channel_id),
{
    let ghost keep = |a: Id| a != channel_id;
    let mut out: Vec<Id> = Vec::new();
    let mut i: usize = 0;
    assert(alerts@.take(0).filter(keep) =~= Seq::<Id>::empty()) by {
        reveal(Seq::filter);
    }
    while i < alerts.len()
        invariant
            i <= alerts.len(),
            keep == (|a: Id| a != channel_id),
            out@ == alerts@.take(i as int).filter(keep),
        decreases alerts.len() - i,
    {
        proof {
            crate::public::incident::lemma_filter_next(alerts@, keep, i as int);
        }
        if alerts[i] != channel_id {
            out.push(alerts[i]);
        }
        i += 1;
    }
    proof {
        assert(alerts@.take(i as int) =~= alerts@);
        if out@.contains(channel_id) {
            let k = choose|k: int| 0 <= k < out@.len() && out@[k] == channel_id;
            alerts@.lemma_filter_pred(keep, k);
        }
    }
    out
}

/// The message that tries a channel out. A channel that is switched off is not
/// tried.
pub fn test_channel(channel: &NotificationChannel) -> (r: Result<String, AppError>)
    ensures
        match r {
            Ok(message) => channel.enabled && message@ == "Test notification from channel "@
                + channel.name@ + " ("@ + channel.kind.db_name() + ")"@,
            Err(e) => !channel.enabled && crate::error::is_bad_request(
                e,
                "CHANNEL_DISABLED"@,
                "channel is disabled; enable it before testing"@,
            ),
        },
{
    if !channel.enabled {
        return Err(
            bad_request(
                "CHANNEL_DISABLED",
                owned("channel is disabled; enable it before testing"),
            ),
        );
    }
    let mut message = owned("Test notification from channel ");
    message.append(channel.name.as_str());
    message.append(" (");
    message.append(channel.kind.as_db_str());
    message.append(")");
    Ok(message)
}

/// How far a message to a channel got before it failed.
#[derive(Clone, Copy, Debug, PartialEq, Eq, Structural)]
pub enum NotifierFault {
    Build,
    Send,
    VerificationMail,
}

/// The error for a message that could not be sent; the reason is for the log.
pub fn notifier_failure(fault: NotifierFault, reason: String) -> (e: AppError)
    ensures
        crate::error::is_internal(
            e,
            match fault {
                NotifierFault::Build => "NOTIFIER_BUILD"@,
                NotifierFault::Send => "NOTIFIER_SEND"@,
                NotifierFault::VerificationMail => "VERIFICATION_EMAIL_SEND"@,
            },
            reason@,
        ),
{
    let code = match fault {
        NotifierFault::Build => "NOTIFIER_BUILD",
        NotifierFault::Send => "NOTIFIER_SEND",
        NotifierFault::VerificationMail => "VERIFICATION_EMAIL_SEND",
    };
    AppError::Internal { code, log: reason }
}

/// A request to confirm a mail address: what is kept of it, and what the mail says.
#[derive(Clone, Debug)]
pub struct VerificationRequest {
    pub channel_id: Id,
    pub token_hash: String,
    pub expires_at: Moment,
    pub to: String,
    pub channel_name: String,
    pub verify_url: String,
    pub decline_url: String,
    pub expires_hours: u32,
}

/// `v` asks for the confirmation of this channel's address, by this token.
pub open spec fn asks_to_verify(
    v: VerificationRequest,
    channel: NotificationChannel,
    token: Seq<char>,
    base_url: Seq<char>,
    now: Moment,
) -> bool {
    let base = crate::text::without_trailing_slashes(base_url);
    &&& v.channel_id == channel.id
    &&& v.token_hash@ == crate::codec::sha256_text(vstd::utf8::encode_utf8(token))
    &&& v.expires_at == now + 24 * HOUR
    &&& channel.config matches ChannelConfig::Email { to } && v.to@ == to@
    &&& v.channel_name@ == channel.name@
    &&& v.verify_url@ == base + "/api/public/v1/notification-channels/verify?token="@ + token
    &&& v.decline_url@ == base + "/api/public/v1/notification-channels/decline?token="@ + token
    &&& v.expires_hours == VERIFICATION_TOKEN_HOURS
}

/// Why the confirmation of a channel's address may not be asked for, where it may
/// not: only the address of a mail channel that is switched on and not confirmed
/// yet may.
pub open spec fn is_verification_refusal(e: AppError, channel: NotificationChannel) -> bool {
    if !(channel.kind is Email) {
        crate::error::is_conflict(
            e,
            "CHANNEL_NOT_EMAIL"@,
            "only email channels require verification"@,
        )
    } else if channel.verified_at is Some {
        crate::error::is_conflict(e, "CHANNEL_ALREADY_VERIFIED"@, "channel is already verified"@)
    } else if !channel.enabled {
        crate::error::is_conflict(
            e,
            "CHANNEL_DISABLED"@,
            "channel is disabled; re-enable before requesting verification"@,
        )
    } else {
        channel.config is Secret && crate::error::is_internal(
            e,
            "CHANNEL_CONFIG_MISMATCH"@,
            "channel kind is email but config is not EmailConfig"@,
        )
    }
}

/// Asks for the confirmation of a channel's mail address by a fresh token, of which
/// only the digest is kept.
pub fn request_verification(
    channel: &NotificationChannel,
    token: &str,
    base_url: &str,
    now: Moment,
) -> (r: Result<VerificationRequest, AppError>)
    requires
        now + 24 * HOUR <= i128::MAX,
    ensures
        match r {
            Ok(v) => {
                &&& channel.kind is Email
                &&& channel.verified_at is None
                &&& channel.enabled
                &&& asks_to_verify(v, *channel, token@, base_url@, now)
            },
            Err(e) => is_verification_refusal(e, *channel),
        },
{
    match channel.kind {
        ChannelKind::Email => {},
        _ => {
            return Err(
                conflict("CHANNEL_NOT_EMAIL", owned("only email channels require verification")),
            );
        },
    }
    if channel.verified_at.is_some() {
        return Err(conflict("CHANNEL_ALREADY_VERIFIED", owned("channel is already verified")));
    }
    if !channel.enabled {
        return Err(
            conflict(
                "CHANNEL_DISABLED",
                owned("channel is disabled; re-enable before requesting verification"),
            ),
        );
    }
    match &channel.config {
        ChannelConfig::Secret { .. } => Err(
            AppError::Internal {
                code: "CHANNEL_CONFIG_MISMATCH",
                log: owned("channel kind is email but config is not EmailConfig"),
            },
        ),
        ChannelConfig::Email { to } => {
            let base = trim_end_slashes(base_url);
            let mut verify_url = base.clone();
            verify_url.append("/api/public/v1/notification-channels/verify?token=");
            verify_url.append(token);
            let mut decline_url = base;
            decline_url.append("/api/public/v1/notification-channels/decline?token=");
            decline_url.append(token);
            Ok(
                VerificationRequest {
                    channel_id: channel.id,
                    token_hash: hash_cookie_value(token),
                    expires_at: now + 24 * HOUR,
                    to: to.clone(),
                    channel_name: channel.name.clone(),
                    verify_url,
                    decline_url,
                    expires_hours: VERIFICATION_TOKEN_HOURS,
                },
            )
        },
    }
}

} // verus!
