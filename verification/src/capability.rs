//! The closed set of interfaces a kernel offers, and who provides each of
//! them in the composite kernel.

use vstd::prelude::*;

verus! {

/// The interfaces of the base kernel. Each is a contract of its own and can
/// be implemented and replaced without the others.
#[derive(Clone, Copy, Debug, PartialEq, Eq, Structural)]
pub enum BaseCapability {
    /// Looking up and creating actors.
    ActorOps,
    /// Hashing and signature checks.
    CryptoOps,
    /// The context of the message being executed.
    MessageOps,
    /// Randomness from the committed beacons.
    RandomnessOps,
    /// The actor's own state and balance.
    SelfOps,
    /// Sending messages to other actors.
    SendOps,
    /// Replacing the actor's code.
    UpgradeOps,
    /// Logging and debug artifacts.
    DebugOps,
    /// Emitting events.
    EventOps,
    /// Reading and writing blocks.
    IpldBlockOps,
}

/// Every interface of the composite kernel: those of the base kernel and the
/// one capability that is new.
#[derive(Clone, Copy, Debug, PartialEq, Eq, Structural)]
pub enum Capability {
    /// An interface the base kernel already has.
    Base(BaseCapability),
    /// The custom syscall.
    Custom,
}

/// Who answers for an interface of the composite kernel.
#[derive(Clone, Copy, Debug, PartialEq, Eq, Structural)]
pub enum Provider {
    /// The wrapped base kernel: the call is handed on unchanged.
    Forwarded,
    /// The composite kernel itself.
    Local,
}

/// The number of interfaces of the base kernel.
pub const BASE_CAPABILITY_COUNT: usize = 10;

impl BaseCapability {
    /// The position of the interface in the set.
    pub open spec fn spec_index(self) -> int {
        match self {
            BaseCapability::ActorOps => 0,
            BaseCapability::CryptoOps => 1,
            BaseCapability::MessageOps => 2,
            BaseCapability::RandomnessOps => 3,
            BaseCapability::SelfOps => 4,
            BaseCapability::SendOps => 5,
            BaseCapability::UpgradeOps => 6,
            BaseCapability::DebugOps => 7,
            BaseCapability::EventOps => 8,
            BaseCapability::IpldBlockOps => 9,
        }
    }

    /// The name under which an operation of the interface is charged.
    pub open spec fn spec_name(self) -> Seq<char> {
        match self {
            BaseCapability::ActorOps => "ActorOps"@,
            BaseCapability::CryptoOps => "CryptoOps"@,
            BaseCapability::MessageOps => "MessageOps"@,
            BaseCapability::RandomnessOps => "RandomnessOps"@,
            BaseCapability::SelfOps => "SelfOps"@,
            BaseCapability::SendOps => "SendOps"@,
            BaseCapability::UpgradeOps => "UpgradeOps"@,
            BaseCapability::DebugOps => "DebugOps"@,
            BaseCapability::EventOps => "EventOps"@,
            BaseCapability::IpldBlockOps => "IpldBlockOps"@,
        }
    }

    /// Returns the position of the interface in the set.
    pub fn index(self) -> (i: usize)
        ensures
            i == self.spec_index(),
            i < BASE_CAPABILITY_COUNT,
    {
        match self {
            BaseCapability::ActorOps => 0,
            BaseCapability::CryptoOps => 1,
            BaseCapability::MessageOps => 2,
            BaseCapability::RandomnessOps => 3,
            BaseCapability::SelfOps => 4,
            BaseCapability::SendOps => 5,
            BaseCapability::UpgradeOps => 6,
            BaseCapability::DebugOps => 7,
            BaseCapability::EventOps => 8,
            BaseCapability::IpldBlockOps => 9,
        }
    }

    /// Returns the name under which an operation of the interface is charged.
    pub fn name(self) -> (n: &'static str)
        ensures
            n@ == self.spec_name(),
    {
        match self {
            BaseCapability::ActorOps => "ActorOps",
            BaseCapability::CryptoOps => "CryptoOps",
            BaseCapability::MessageOps => "MessageOps",
            BaseCapability::RandomnessOps => "RandomnessOps",
            BaseCapability::SelfOps => "SelfOps",
            BaseCapability::SendOps => "SendOps",
            BaseCapability::UpgradeOps => "UpgradeOps",
            BaseCapability::DebugOps => "DebugOps",
            BaseCapability::EventOps => "EventOps",
            BaseCapability::IpldBlockOps => "IpldBlockOps",
        }
    }

    /// Every interface of the base kernel, each once, in the order of
    /// `index`.
    pub fn all() -> (v: Vec<BaseCapability>)
        ensures
            v@.len() == BASE_CAPABILITY_COUNT,
            forall|c: BaseCapability| #[trigger] v@[c.spec_index()] == c,
    {
        let mut v: Vec<BaseCapability> = Vec::new();
        v.push(BaseCapability::ActorOps);
        v.push(BaseCapability::CryptoOps);
        v.push(BaseCapability::MessageOps);
        v.push(BaseCapability::RandomnessOps);
        v.push(BaseCapability::SelfOps);
        v.push(BaseCapability::SendOps);
        v.push(BaseCapability::UpgradeOps);
        v.push(BaseCapability::DebugOps);
        v.push(BaseCapability::EventOps);
        v.push(BaseCapability::IpldBlockOps);
        v
    }
}

impl Capability {
    /// Who provides the interface: the custom capability is implemented by
    /// the composite kernel, every other one by the base kernel.
    pub open spec fn spec_provider(self) -> Provider {
        match self {
            Capability::Base(_) => Provider::Forwarded,
            Capability::Custom => Provider::Local,
        }
    }

    /// Returns who provides the interface.
    pub fn provider(self) -> (p: Provider)
        ensures
            p == self.spec_provider(),
    {
        match self {
            Capability::Base(_) => Provider::Forwarded,
            Capability::Custom => Provider::Local,
        }
    }

    /// Every interface of the composite kernel, each once: those of the base
    /// kernel in their order, then the custom capability.
    pub fn all() -> (v: Vec<Capability>)
        ensures
            v@.len() == BASE_CAPABILITY_COUNT + 1,
            forall|b: BaseCapability| #[trigger] v@[b.spec_index()] == Capability::Base(b),
            v@[BASE_CAPABILITY_COUNT as int] == Capability::Custom,
    {
        let base: Vec<BaseCapability> = BaseCapability::all();
        let mut v: Vec<Capability> = Vec::new();
        let mut i: usize = 0;
        while i < base.len()
            invariant
                i <= base@.len(),
                base@.len() == BASE_CAPABILITY_COUNT,
                v@.len() == i,
                forall|j: int| 0 <= j < i ==> v@[j] == Capability::Base(base@[j]),
            decreases base@.len() - i,
        {
            v.push(Capability::Base(base[i]));
            i = i + 1;
        }
        v.push(Capability::Custom);
        assert forall|b: BaseCapability| #[trigger] v@[b.spec_index()] == Capability::Base(b) by {
            assert(base@[b.spec_index()] == b);
        }
        v
    }
}

/// Every interface of the composite kernel has exactly one provider: the
/// custom capability is implemented locally, and every interface of the base
/// kernel is forwarded. None is provided twice, and none is left out.
pub proof fn lemma_one_provider_each(capability: Capability)
    ensures
        capability.spec_provider() == Provider::Local <==> capability == Capability::Custom,
        capability.spec_provider() == Provider::Forwarded <==> capability is Base,
        capability.spec_provider() == Provider::Local || capability.spec_provider()
            == Provider::Forwarded,
{
}

/// The interfaces of the base kernel are told apart by their positions.
pub proof fn lemma_index_is_injective(a: BaseCapability, b: BaseCapability)
    ensures
        0 <= a.spec_index() < BASE_CAPABILITY_COUNT,
        a.spec_index() == b.spec_index() <==> a == b,
{
}

} // verus!
