use vstd::prelude::*;

verus! {

/// A 128-bit identifier of a service or of one of its characteristics.
#[derive(Debug, Clone, Copy, PartialEq, Eq, Structural, Hash)]
pub struct Identifier(pub u128);

impl Identifier {
    pub fn from_u128(v: u128) -> (r: Identifier)
        ensures
            r.0 == v,
    {
        Identifier(v)
    }

    pub fn as_u128(&self) -> (r: u128)
        ensures
            r == self.0,
    {
        self.0
    }
}

/// The four bits of an identifier that carry a characteristic's index.
pub open spec fn selector(id: u128) -> u128 {
    (id >> 96u128) & 0xF
}

/// An identifier with its selector bits cleared: its service's namespace.
pub open spec fn namespace(id: u128) -> u128 {
    id & !(0xFu128 << 96u128)
}

/// The identifier in namespace `prefix` whose selector bits hold `index`.
pub open spec fn with_selector(prefix: u128, index: u128) -> u128 {
    prefix | (index << 96u128)
}

/// The services that a monitor exposes.
#[derive(Debug, Clone, Copy, PartialEq, Eq, Structural)]
pub enum ServiceKind {
    Information,
    Control,
    Rowing,
    HeartRate,
}

impl ServiceKind {
    /// The namespace of the service: its identifiers with the selector cleared.
    pub open spec fn namespace_prefix(self) -> u128 {
        match self {
            ServiceKind::Information => 0xCE060010_43E5_11E4_916C_0800200C9A66,
            ServiceKind::Control => 0xCE060020_43E5_11E4_916C_0800200C9A66,
            ServiceKind::Rowing => 0xCE060030_43E5_11E4_916C_0800200C9A66,
            ServiceKind::HeartRate => 0xCE060040_43E5_11E4_916C_0800200C9A66,
        }
    }

    /// The service's own identifier, which is its namespace.
    pub fn prefix(&self) -> (r: Identifier)
        ensures
            r.0 == self.namespace_prefix(),
    {
        match self {
            ServiceKind::Information => Identifier(0xCE060010_43E5_11E4_916C_0800200C9A66),
            ServiceKind::Control => Identifier(0xCE060020_43E5_11E4_916C_0800200C9A66),
            ServiceKind::Rowing => Identifier(0xCE060030_43E5_11E4_916C_0800200C9A66),
            ServiceKind::HeartRate => Identifier(0xCE060040_43E5_11E4_916C_0800200C9A66),
        }
    }
}

/// Whether `id` lies in the namespace of `service`.
pub open spec fn belongs(service: ServiceKind, id: u128) -> bool {
    namespace(id) == service.namespace_prefix()
}

/// The identifier of the characteristic with 1-based `index` in `service`.
pub fn identifier_of(service: ServiceKind, index: u8) -> (r: Identifier)
    requires
        1 <= index <= 15,
    ensures
        r.0 == with_selector(service.namespace_prefix(), index as u128),
{
    let p = service.prefix();
    Identifier(p.0 | ((index as u128) << 96u128))
}

/// Whether clearing the selector bits of `id` gives the namespace of `service`.
pub fn belongs_to(service: ServiceKind, id: Identifier) -> (r: bool)
    ensures
        r == belongs(service, id.0),
{
    let p = service.prefix();
    (id.0 & !(0xFu128 << 96u128)) == p.0
}

/// The selector bits of `id`.
pub fn selector_of(id: Identifier) -> (r: u8)
    ensures
        r as u128 == selector(id.0),
        r < 16,
{
    let x: u128 = id.0;
    let v: u128 = (x >> 96u128) & 0xF;
    assert(((x >> 96u128) & 0xF) < 16) by (bit_vector);
    v as u8
}

/// The service whose namespace holds `id`, if any.
pub fn recognize(id: Identifier) -> (r: Option<ServiceKind>)
    ensures
        r matches Some(s) ==> belongs(s, id.0),
        r is None <==> forall|s: ServiceKind| !belongs(s, id.0),
{
    if belongs_to(ServiceKind::Information, id) {
        Some(ServiceKind::Information)
    } else if belongs_to(ServiceKind::Control, id) {
        Some(ServiceKind::Control)
    } else if belongs_to(ServiceKind::Rowing, id) {
        Some(ServiceKind::Rowing)
    } else if belongs_to(ServiceKind::HeartRate, id) {
        Some(ServiceKind::HeartRate)
    } else {
        assert forall|s: ServiceKind| !belongs(s, id.0) by {
            match s {
                ServiceKind::Information => {},
                ServiceKind::Control => {},
                ServiceKind::Rowing => {},
                ServiceKind::HeartRate => {},
            }
        }
        None
    }
}

proof fn lemma_bits(p: u128, i: u128)
    by (bit_vector)
    requires
        p & (0xFu128 << 96u128) == 0,
        i < 16,
    ensures
        (p | (i << 96u128)) & !(0xFu128 << 96u128) == p,
        ((p | (i << 96u128)) >> 96u128) & 0xF == i,
{
}

proof fn lemma_prefix_selector_clear(s: ServiceKind)
    ensures
        s.namespace_prefix() & (0xFu128 << 96u128) == 0,
{
    assert(0xCE060010_43E5_11E4_916C_0800200C9A66u128 & (0xFu128 << 96u128) == 0) by (bit_vector);
    assert(0xCE060020_43E5_11E4_916C_0800200C9A66u128 & (0xFu128 << 96u128) == 0) by (bit_vector);
    assert(0xCE060030_43E5_11E4_916C_0800200C9A66u128 & (0xFu128 << 96u128) == 0) by (bit_vector);
    assert(0xCE060040_43E5_11E4_916C_0800200C9A66u128 & (0xFu128 << 96u128) == 0) by (bit_vector);
}

/// Packing an index into a service's namespace and unpacking it again gives
/// back the service's namespace and the index.
pub proof fn lemma_selector_round_trip(s: ServiceKind, i: u128)
    requires
        i < 16,
    ensures
        namespace(with_selector(s.namespace_prefix(), i)) == s.namespace_prefix(),
        selector(with_selector(s.namespace_prefix(), i)) == i,
{
    lemma_prefix_selector_clear(s);
    lemma_bits(s.namespace_prefix(), i);
}

/// Within one service, distinct indices give distinct identifiers.
pub proof fn lemma_selector_injective(s: ServiceKind, i: u128, j: u128)
    requires
        i < 16,
        j < 16,
        with_selector(s.namespace_prefix(), i) == with_selector(s.namespace_prefix(), j),
    ensures
        i == j,
{
    lemma_selector_round_trip(s, i);
    lemma_selector_round_trip(s, j);
}

/// An identifier made for a service belongs to that service and to no other.
pub proof fn lemma_identifier_belongs(s: ServiceKind, other: ServiceKind, i: u128)
    requires
        1 <= i <= 15,
    ensures
        belongs(s, with_selector(s.namespace_prefix(), i)),
        other != s ==> !belongs(other, with_selector(s.namespace_prefix(), i)),
{
    lemma_selector_round_trip(s, i);
}

} // verus!
