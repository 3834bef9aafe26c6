//! When a secret is due for rotation, and what rotating it changes.
use vstd::prelude::*;
use crate::secrets::types::{Secret, SecretEvent, SecretView, SecretsError, Timestamp};

verus! {

/// Nanoseconds in a day.
pub const NANOS_PER_DAY: i128 = 86_400_000_000_000;

/// When a secret is rotated.
#[derive(Debug, Clone, Copy, PartialEq, Eq, Structural)]
pub enum RotationPolicy {
    /// Only on a manual trigger.
    Manual,
    /// Once the secret is older than `duration` nanoseconds (measured
    /// from its last update).
    TimeBased { duration: i128 },
}

impl Default for RotationPolicy {
    /// Every thirty days.
    fn default() -> (r: Self)
        ensures
            r == (RotationPolicy::TimeBased { duration: (30 * NANOS_PER_DAY) as i128 }),
    {
        RotationPolicy::TimeBased { duration: 30 * NANOS_PER_DAY }
    }
}

/// `chrono::Utc::now`, as its `timestamp` and `timestamp_subsec_nanos`.
/// Claimed: only that the sub-second part is below two seconds (chrono
/// documents it may exceed 999,999,999 during a leap second); the
/// reading itself depends on the clock.
#[verifier::external_body]
fn utc_now() -> (r: Timestamp)
    ensures
        r.nanos < 2_000_000_000,
{
    let now = chrono::Utc::now();
    Timestamp { secs: now.timestamp(), nanos: now.timestamp_subsec_nanos() }
}

/// Whether a secret last updated at `updated` is due under `policy` at `now`.
pub open spec fn due(policy: RotationPolicy, updated: Timestamp, now: Timestamp) -> bool {
    match policy {
        RotationPolicy::Manual => false,
        RotationPolicy::TimeBased { duration } => now.total_nanos() - updated.total_nanos() >= duration,
    }
}

/// The value of a secret after a rotation at `now`.
pub open spec fn rotated(s: SecretView, now: Timestamp) -> SecretView {
    SecretView { version: (s.version + 1) as u32, updated_at: now, ..s }
}

/// Decides and performs secret rotations.
pub struct RotationEngine;

impl Default for RotationEngine {
    fn default() -> (r: Self) {
        RotationEngine::new()
    }
}

impl RotationEngine {
    pub fn new() -> (r: Self) {
        RotationEngine
    }

    /// Whether `secret` should be rotated under `policy` at instant `now`.
    pub fn should_rotate_at(&self, secret: &Secret, policy: &RotationPolicy, now: Timestamp) -> (r: bool)
        ensures
            r == due(*policy, secret.metadata.updated_at, now),
    {
        match policy {
            RotationPolicy::Manual => false,
            RotationPolicy::TimeBased { duration } => {
                let age = now.as_nanos() - secret.metadata.updated_at.as_nanos();
                age >= *duration
            },
        }
    }

    /// Check if a secret should be rotated based on the provided policy,
    /// at the current time.
    pub fn should_rotate(&self, secret: &Secret, policy: &RotationPolicy) -> (r: bool)
        ensures
            exists|now: Timestamp| r == due(*policy, secret.metadata.updated_at, now),
            *policy == RotationPolicy::Manual ==> !r,
    {
        let now = utc_now();
        self.should_rotate_at(secret, policy, now)
    }

    /// Rotate a secret at instant `now`: increment its version and stamp
    /// the update; the ciphertext is left as it is.
    pub fn rotate_at(&self, secret: &mut Secret, now: Timestamp) -> (r: Result<SecretEvent, SecretsError>)
        requires
            old(secret).version < u32::MAX,
        ensures
            final(secret)@ == rotated(old(secret)@, now),
            r == Ok::<SecretEvent, SecretsError>(SecretEvent::Rotated {
                secret_id: old(secret).id,
                old_version: old(secret).version,
                new_version: (old(secret).version + 1) as u32,
            }),
    {
        let old_version = secret.version;
        let new_version = old_version + 1;
        secret.version = new_version;
        secret.metadata.updated_at = now;
        Ok(SecretEvent::Rotated { secret_id: secret.id, old_version, new_version })
    }

    /// Rotate a secret now: increment version, update timestamps, and
    /// return the event.
    pub fn rotate(&self, secret: &mut Secret) -> (r: Result<SecretEvent, SecretsError>)
        requires
            old(secret).version < u32::MAX,
        ensures
            exists|now: Timestamp| #[trigger] rotated(old(secret)@, now) == final(secret)@,
            r == Ok::<SecretEvent, SecretsError>(SecretEvent::Rotated {
                secret_id: old(secret).id,
                old_version: old(secret).version,
                new_version: (old(secret).version + 1) as u32,
            }),
    {
        let now = utc_now();
        self.rotate_at(secret, now)
    }
}

/// A secret rotated at `now` is not due again at `now` under a time
/// based policy with a positive period, nor ever under a manual one.
pub proof fn rotated_secret_is_not_due(s: SecretView, now: Timestamp, policy: RotationPolicy)
    requires
        policy matches RotationPolicy::TimeBased { duration } ==> duration > 0,
    ensures
        !due(policy, rotated(s, now).updated_at, now),
{
}

/// Rotation keeps the identity, algorithm, ciphertext and creation time
/// of a secret, and raises its version by exactly one.
pub proof fn rotation_keeps_identity(s: SecretView, now: Timestamp)
    requires
        s.version < u32::MAX,
    ensures
        rotated(s, now).id == s.id,
        rotated(s, now).version == s.version + 1,
        rotated(s, now).algorithm == s.algorithm,
        rotated(s, now).ciphertext == s.ciphertext,
        rotated(s, now).created_at == s.created_at,
{
}

/// A time based policy is monotone: once due, a secret stays due as
/// time goes on.
pub proof fn due_stays_due(policy: RotationPolicy, updated: Timestamp, t1: Timestamp, t2: Timestamp)
    requires
        due(policy, updated, t1),
        t1.total_nanos() <= t2.total_nanos(),
    ensures
        due(policy, updated, t2),
{
}

} // verus!
