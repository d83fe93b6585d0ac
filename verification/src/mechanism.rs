//! Which security mechanism a greeting proposes.

use vstd::prelude::*;

use crate::options::{ConfigView, ZmtpEngineConfig};

verus! {

/// A security mechanism.
#[derive(Debug, Clone, Copy, PartialEq, Eq, Structural)]
pub enum MechanismKind {
    Null,
    Plain,
    Curve,
    NoiseXx,
}

/// The name of a mechanism as it stands in a greeting.
pub open spec fn mechanism_name_bytes(kind: MechanismKind) -> Seq<u8> {
    match kind {
        // NULL
        MechanismKind::Null => seq![0x4eu8, 0x55, 0x4c, 0x4c],
        // PLAIN
        MechanismKind::Plain => seq![0x50u8, 0x4c, 0x41, 0x49, 0x4e],
        // CURVE
        MechanismKind::Curve => seq![0x43u8, 0x55, 0x52, 0x56, 0x45],
        // NOISE_XX
        MechanismKind::NoiseXx => seq![0x4eu8, 0x4f, 0x49, 0x53, 0x45, 0x5f, 0x58, 0x58],
    }
}

/// The 20 bytes that stand for a mechanism in a greeting: its name, padded with
/// zeros.
pub open spec fn mechanism_field(kind: MechanismKind) -> Seq<u8> {
    let name = mechanism_name_bytes(kind);
    name + Seq::new((20 - name.len()) as nat, |i: int| 0u8)
}

/// Whether the keys that Noise_XX needs in this role are there.
pub open spec fn has_noise_keys(config: ConfigView, is_server: bool) -> bool {
    &&& config.noise_xx_local_sk_bytes_for_engine is Some
    &&& is_server || config.noise_xx_remote_pk_bytes_for_engine is Some
}

/// The mechanism to propose: Noise_XX where it is on and has its keys, else CURVE,
/// PLAIN and NULL in this order.
pub open spec fn proposed_mechanism(config: ConfigView, is_server: bool) -> MechanismKind {
    if config.use_noise_xx && has_noise_keys(config, is_server) {
        MechanismKind::NoiseXx
    } else if config.use_curve {
        MechanismKind::Curve
    } else if config.use_plain {
        MechanismKind::Plain
    } else {
        MechanismKind::Null
    }
}

impl MechanismKind {
    /// The 20 bytes that stand for this mechanism in a greeting.
    pub fn name_bytes(self) -> (field: [u8; 20])
        ensures
            field@ == mechanism_field(self),
    {
        let field: [u8; 20] = match self {
            // NULL
            MechanismKind::Null => [
                0x4e, 0x55, 0x4c, 0x4c, 0, 0, 0, 0, 0, 0, 0, 0, 0, 0, 0, 0, 0, 0, 0, 0,
            ],
            // PLAIN
            MechanismKind::Plain => [
                0x50, 0x4c, 0x41, 0x49, 0x4e, 0, 0, 0, 0, 0, 0, 0, 0, 0, 0, 0, 0, 0, 0, 0,
            ],
            // CURVE
            MechanismKind::Curve => [
                0x43, 0x55, 0x52, 0x56, 0x45, 0, 0, 0, 0, 0, 0, 0, 0, 0, 0, 0, 0, 0, 0, 0,
            ],
            // NOISE_XX
            MechanismKind::NoiseXx => [
                0x4e, 0x4f, 0x49, 0x53, 0x45, 0x5f, 0x58, 0x58, 0, 0, 0, 0, 0, 0, 0, 0, 0, 0, 0, 0,
            ],
        };
        assert(field@ =~= mechanism_field(self));
        field
    }
}

impl ZmtpEngineConfig {
    /// The mechanism to propose in this role.
    pub fn mechanism_to_propose(&self, is_server: bool) -> (kind: MechanismKind)
        ensures
            kind == proposed_mechanism(self@, is_server),
    {
        if self.use_noise_xx {
            let can_propose_noise = if is_server {
                self.noise_xx_local_sk_bytes_for_engine.is_some()
            } else {
                self.noise_xx_local_sk_bytes_for_engine.is_some()
                    && self.noise_xx_remote_pk_bytes_for_engine.is_some()
            };
            if can_propose_noise {
                return MechanismKind::NoiseXx;
            }
        }
        if self.use_curve {
            return MechanismKind::Curve;
        }
        if self.use_plain {
            return MechanismKind::Plain;
        }
        MechanismKind::Null
    }

    /// The 20 bytes that stand in a greeting for the mechanism to propose in this
    /// role.
    pub fn security_mechanism_bytes_to_propose(&self, is_handler_server_role: bool) -> (field: [u8;
        20])
        ensures
            field@ == mechanism_field(proposed_mechanism(self@, is_handler_server_role)),
    {
        self.mechanism_to_propose(is_handler_server_role).name_bytes()
    }
}

/// NULL is proposed only where no other mechanism can be, and a mechanism only where it
/// is on.
pub proof fn law_proposed_mechanism_is_on(config: ConfigView, is_server: bool)
    ensures
        proposed_mechanism(config, is_server) == MechanismKind::Null <==> !config.use_plain
            && !config.use_curve && !(config.use_noise_xx && has_noise_keys(config, is_server)),
        proposed_mechanism(config, is_server) == MechanismKind::Plain ==> config.use_plain,
        proposed_mechanism(config, is_server) == MechanismKind::Curve ==> config.use_curve,
        proposed_mechanism(config, is_server) == MechanismKind::NoiseXx ==> config.use_noise_xx,
{
}

/// Each mechanism has its own field of 20 bytes in a greeting.
pub proof fn law_mechanism_fields_are_distinct(one: MechanismKind, other: MechanismKind)
    ensures
        mechanism_field(one).len() == 20,
        mechanism_field(one) == mechanism_field(other) ==> one == other,
{
    assert(mechanism_field(one)[0] == mechanism_name_bytes(one)[0]);
    assert(mechanism_field(other)[0] == mechanism_name_bytes(other)[0]);
    assert(mechanism_field(one)[1] == mechanism_name_bytes(one)[1]);
    assert(mechanism_field(other)[1] == mechanism_name_bytes(other)[1]);
}

/// Which mechanism is proposed: Noise_XX where it is on and the own key is there, and for
/// a client the key of the server too; else CURVE where it is on; else PLAIN where it is
/// on; else NULL.
pub proof fn law_which_mechanism_is_proposed(config: ConfigView, is_server: bool)
    ensures
        ({
            let noise = config.use_noise_xx && config.noise_xx_local_sk_bytes_for_engine is Some
                && (is_server || config.noise_xx_remote_pk_bytes_for_engine is Some);
            let kind = proposed_mechanism(config, is_server);
            &&& kind == MechanismKind::NoiseXx <==> noise
            &&& kind == MechanismKind::Curve <==> !noise && config.use_curve
            &&& kind == MechanismKind::Plain <==> !noise && !config.use_curve && config.use_plain
            &&& kind == MechanismKind::Null <==> !noise && !config.use_curve && !config.use_plain
        }),
{
}

/// What stands for each mechanism in a greeting: its name in ASCII, and zeros up to the
/// twentieth byte.
pub proof fn law_mechanism_names(i: int)
    requires
        0 <= i < 20,
    ensures
        mechanism_field(MechanismKind::Null).take(4) == seq![0x4eu8, 0x55, 0x4c, 0x4c],
        i >= 4 ==> mechanism_field(MechanismKind::Null)[i] == 0,
        mechanism_field(MechanismKind::Plain).take(5) == seq![0x50u8, 0x4c, 0x41, 0x49, 0x4e],
        i >= 5 ==> mechanism_field(MechanismKind::Plain)[i] == 0,
        mechanism_field(MechanismKind::Curve).take(5) == seq![0x43u8, 0x55, 0x52, 0x56, 0x45],
        i >= 5 ==> mechanism_field(MechanismKind::Curve)[i] == 0,
        mechanism_field(MechanismKind::NoiseXx).take(8) == seq![
            0x4eu8,
            0x4f,
            0x49,
            0x53,
            0x45,
            0x5f,
            0x58,
            0x58,
        ],
        i >= 8 ==> mechanism_field(MechanismKind::NoiseXx)[i] == 0,
        mechanism_field(MechanismKind::Null).len() == 20,
        mechanism_field(MechanismKind::Plain).len() == 20,
        mechanism_field(MechanismKind::Curve).len() == 20,
        mechanism_field(MechanismKind::NoiseXx).len() == 20,
{
    assert(mechanism_field(MechanismKind::Null).take(4) =~= seq![0x4eu8, 0x55, 0x4c, 0x4c]);
    assert(mechanism_field(MechanismKind::Plain).take(5) =~= seq![0x50u8, 0x4c, 0x41, 0x49, 0x4e]);
    assert(mechanism_field(MechanismKind::Curve).take(5) =~= seq![0x43u8, 0x55, 0x52, 0x56, 0x45]);
    assert(mechanism_field(MechanismKind::NoiseXx).take(8) =~= seq![
        0x4eu8,
        0x4f,
        0x49,
        0x53,
        0x45,
        0x5f,
        0x58,
        0x58,
    ]);
}

} // verus!
