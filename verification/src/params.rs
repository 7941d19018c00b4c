//! Parameter maps and the capability-negotiation protocol.
//!
//! A parameter map is a key/value store used to pass named values to and
//! from the native layer.  Keys are the fixed names defined by the vendor;
//! this wrapper models each name it touches as a variant of
//! [`ParameterKey`].  A *capability* map is a parameter map pre-populated
//! by the native layer with feature-availability and driver-version facts.

use vstd::prelude::*;

use crate::decimal::{spec_decimal, u32_to_string};
use crate::error::{Error, RESULT_FAIL};

verus! {

/// A parameter name understood by the native layer.
///
/// Each variant stands for one of the fixed ASCII names of the vendor
/// parameter namespace (for example `SuperSampling.Available` or
/// `SuperSamplingDenoising.MinDriverVersionMajor`).
#[derive(Debug, Clone, Copy, PartialEq, Eq, Hash, Structural)]
pub enum ParameterKey {
    /// Whether the super-sampling feature is available on this platform.
    SuperSamplingAvailable,
    /// Whether the super-sampling feature needs an updated driver.
    SuperSamplingNeedsUpdatedDriver,
    /// The major component of the minimum driver version for super sampling.
    SuperSamplingMinDriverVersionMajor,
    /// The minor component of the minimum driver version for super sampling.
    SuperSamplingMinDriverVersionMinor,
    /// Whether the super-sampling feature initialised correctly.
    SuperSamplingFeatureInitResult,
    /// Whether the ray-reconstruction (denoising) feature is available.
    SuperSamplingDenoisingAvailable,
    /// Whether the ray-reconstruction feature needs an updated driver.
    SuperSamplingDenoisingNeedsUpdatedDriver,
    /// The major component of the minimum driver version for ray reconstruction.
    SuperSamplingDenoisingMinDriverVersionMajor,
    /// The minor component of the minimum driver version for ray reconstruction.
    SuperSamplingDenoisingMinDriverVersionMinor,
    /// Whether the ray-reconstruction feature initialised correctly.
    SuperSamplingDenoisingFeatureInitResult,
    /// The number of frames to generate.
    NumFrames,
    /// The scale parameter.
    Scale,
    /// The optimisation level.
    OptLevel,
}

/// A value stored in a parameter map.
///
/// The native store is typed: booleans are stored as 32-bit integers with
/// `1` for `true` and `0` for `false`; floating-point values are carried
/// as their IEEE-754 bit patterns; opaque pointers as addresses.
#[derive(Debug, Clone, Copy, PartialEq, Eq, Structural)]
pub enum ParameterValue {
    /// A signed 32-bit integer (also the representation of booleans).
    I32(i32),
    /// An unsigned 32-bit integer.
    U32(u32),
    /// An unsigned 64-bit integer.
    U64(u64),
    /// The bit pattern of a 32-bit floating-point value.
    F32Bits(u32),
    /// The bit pattern of a 64-bit floating-point value.
    F64Bits(u64),
    /// The address of a type-erased pointer.
    Pointer(u64),
}

/// The value associated with `key` in `entries`, where a later entry for
/// the same key supersedes an earlier one.
pub open spec fn lookup(entries: Seq<(ParameterKey, ParameterValue)>, key: ParameterKey) -> Option<
    ParameterValue,
>
    decreases entries.len(),
{
    if entries.len() == 0 {
        None
    } else if entries.last().0 == key {
        Some(entries.last().1)
    } else {
        lookup(entries.drop_last(), key)
    }
}

/// The boolean reading of a stored value: booleans live in the store as
/// 32-bit integers, `1` meaning `true`.
pub open spec fn spec_bool_value(value: Option<ParameterValue>) -> Option<bool> {
    match value {
        Some(ParameterValue::I32(i)) => Some(i == 1),
        _ => None,
    }
}

/// The unsigned 32-bit reading of a stored value.
pub open spec fn spec_u32_value(value: Option<ParameterValue>) -> Option<u32> {
    match value {
        Some(ParameterValue::U32(u)) => Some(u),
        _ => None,
    }
}

/// The display name of the super-sampling feature, as it appears in
/// capability error messages.
pub const SUPER_SAMPLING_DISPLAY_NAME: &'static str = "The SuperSampling feature";

/// The display name of the ray-reconstruction feature, as it appears in
/// capability error messages.
pub const RAY_RECONSTRUCTION_DISPLAY_NAME: &'static str = "The Ray Reconstruction feature";

/// The message reported when a feature needs a driver newer than the one
/// installed.
pub open spec fn spec_driver_update_message(
    display_name: Seq<char>,
    major: u32,
    minor: u32,
) -> Seq<char> {
    display_name
        + " requires a driver update. The driver version required should be higher or equal to "@
        + spec_decimal(major) + "."@ + spec_decimal(minor)
}

/// The message reported when a feature is not available on this platform.
pub open spec fn spec_not_supported_message(display_name: Seq<char>) -> Seq<char> {
    display_name + " isn't supported on this platform."@
}

/// What the two-step capability check returns, as a function of the four
/// capability readings: when the driver-freshness flag cannot be read, or
/// reads `true` but the version numbers cannot, the read failure is
/// propagated; when it reads `true` and the version numbers can be read,
/// the check stops with the driver-update error, without consulting the
/// availability flag; only when it reads `false` does the availability
/// flag decide.
pub open spec fn spec_supports_verdict(
    needs_driver: Option<bool>,
    major: Option<u32>,
    minor: Option<u32>,
    available: Option<bool>,
    display_name: Seq<char>,
    r: Result<(), Error>,
) -> bool {
    match needs_driver {
        None => r matches Err(e) && e.is_native_fail(),
        Some(true) => match (major, minor) {
            (Some(mj), Some(mn)) => {
                &&& r matches Err(e)
                &&& e matches Error::Other(m)
                &&& m@ == spec_driver_update_message(display_name, mj, mn)
            },
            _ => r matches Err(e) && e.is_native_fail(),
        },
        Some(false) => match available {
            None => r matches Err(e) && e.is_native_fail(),
            Some(true) => r is Ok,
            Some(false) => {
                &&& r matches Err(e)
                &&& e matches Error::Other(m)
                &&& m@ == spec_not_supported_message(display_name)
            },
        },
    }
}

/// When the driver-freshness gate trips, the availability flag is never
/// consulted: the verdict constrains the result identically whatever that
/// flag reads.
pub proof fn lemma_driver_gate_shadows_availability(
    major: Option<u32>,
    minor: Option<u32>,
    available_one: Option<bool>,
    available_two: Option<bool>,
    display_name: Seq<char>,
    r: Result<(), Error>,
)
    ensures
        spec_supports_verdict(Some(true), major, minor, available_one, display_name, r)
            == spec_supports_verdict(Some(true), major, minor, available_two, display_name, r),
{
}

/// Builds the driver-update error message for one feature.
fn driver_update_message(display_name: &str, major: u32, minor: u32) -> (r: String)
    ensures
        r@ == spec_driver_update_message(display_name@, major, minor),
{
    let mut s = String::from_str(display_name);
    s.append(
        " requires a driver update. The driver version required should be higher or equal to ",
    );
    let major_rendered = u32_to_string(major);
    s.append(major_rendered.as_str());
    s.append(".");
    let minor_rendered = u32_to_string(minor);
    s.append(minor_rendered.as_str());
    proof {
        assert(s@ =~= spec_driver_update_message(display_name@, major, minor));
    }
    s
}

/// Builds the not-supported error message for one feature.
fn not_supported_message(display_name: &str) -> (r: String)
    ensures
        r@ == spec_not_supported_message(display_name@),
{
    let mut s = String::from_str(display_name);
    s.append(" isn't supported on this platform.");
    s
}

/// Backend operations on parameter maps, implemented once per graphics
/// backend by the native bindings.
///
/// Implementations live outside this crate and are not verified; verified
/// code relies only on the contracts below.
pub trait FeatureParameterOps: Sized {
    /// Allocates a bare parameter map.  The native layer documents that
    /// such maps do not come pre-populated, so a successful allocation is
    /// empty.
    fn create_parameters() -> (r: Result<FeatureParameters<Self>, Error>)
        ensures
            r matches Ok(p) ==> forall|key: ParameterKey|
                #[trigger] p.value_of(key) == None::<ParameterValue>,
    ;

    /// Allocates a parameter map pre-populated by the native layer with
    /// capability and driver-version facts.  The contents depend on the
    /// machine, so nothing is promised of them.
    fn get_capability_parameters() -> (r: Result<FeatureParameters<Self>, Error>);

    /// Releases the native storage behind a parameter map.
    fn release_parameters(parameters: &mut FeatureParameters<Self>) -> (r: Result<(), Error>);
}

/// A parameter map owned by this wrapper.
#[derive(Debug)]
pub struct FeatureParameters<T> {
    entries: Vec<(ParameterKey, ParameterValue)>,
    _platform: std::marker::PhantomData<T>,
}

impl<T: FeatureParameterOps> FeatureParameters<T> {
    /// Creates a new feature parameter set through the backend.  A
    /// successful allocation is empty: bare maps do not come
    /// pre-populated.
    pub fn create() -> (r: Result<Self, Error>)
        ensures
            r matches Ok(p) ==> forall|key: ParameterKey|
                #[trigger] p.value_of(key) == None::<ParameterValue>,
    {
        T::create_parameters()
    }

    /// Obtains a parameter map pre-populated by the native layer with
    /// capability and driver-version facts.  This is more expensive than
    /// [`Self::create`] and intended for one-time capability queries.
    pub fn get_capability_parameters() -> (r: Result<Self, Error>) {
        T::get_capability_parameters()
    }

    /// Releases the native storage behind this parameter map.  The map
    /// must not be used again after a successful release; its owner
    /// releases it exactly once, during teardown.
    pub fn release(&mut self) -> (r: Result<(), Error>) {
        T::release_parameters(self)
    }
}

impl<T> FeatureParameters<T> {
    /// The value currently associated with `key`, if any.
    pub closed spec fn value_of(&self, key: ParameterKey) -> Option<ParameterValue> {
        lookup(self.entries@, key)
    }

    /// Creates an empty parameter map.
    pub fn empty() -> (r: Self)
        ensures
            forall|key: ParameterKey| #[trigger] r.value_of(key) == None::<ParameterValue>,
    {
        Self { entries: Vec::new(), _platform: std::marker::PhantomData }
    }

    /// Stores `value` under `key`, superseding any earlier value.
    fn set_value(&mut self, key: ParameterKey, value: ParameterValue)
        ensures
            final(self).value_of(key) == Some(value),
            forall|other: ParameterKey|
                other != key ==> #[trigger] final(self).value_of(other) == old(self).value_of(
                    other,
                ),
    {
        self.entries.push((key, value));
        proof {
            assert(self.entries@.last() == (key, value));
            assert forall|other: ParameterKey|
                other != key implies #[trigger] lookup(self.entries@, other) == lookup(
                old(self).entries@,
                other,
            ) by {
                assert(self.entries@.drop_last() =~= old(self).entries@);
            }
        }
    }

    /// The value associated with `key`, if any.
    fn get_value(&self, key: ParameterKey) -> (r: Option<ParameterValue>)
        ensures
            r == self.value_of(key),
    {
        let mut i = self.entries.len();
        proof {
            assert(self.entries@.take(i as int) =~= self.entries@);
        }
        while i > 0
            invariant
                i <= self.entries@.len(),
                lookup(self.entries@, key) == lookup(self.entries@.take(i as int), key),
            decreases i,
        {
            i = i - 1;
            let entry = self.entries[i];
            proof {
                assert(self.entries@.take(i + 1).last() == self.entries@[i as int]);
                assert(self.entries@.take(i + 1).drop_last() =~= self.entries@.take(i as int));
            }
            if entry.0 == key {
                return Some(entry.1);
            }
        }
        proof {
            assert(self.entries@.take(0).len() == 0);
        }
        None
    }

    /// Sets a boolean value for the parameter named `key`.  Booleans are
    /// stored as 32-bit integers, `1` for `true` and `0` for `false`.
    pub fn set_bool(&mut self, key: ParameterKey, value: bool)
        ensures
            final(self).value_of(key) == Some(ParameterValue::I32(if value { 1i32 } else { 0i32 })),
            forall|other: ParameterKey|
                other != key ==> #[trigger] final(self).value_of(other) == old(self).value_of(
                    other,
                ),
    {
        self.set_value(key, ParameterValue::I32(if value { 1 } else { 0 }));
    }

    /// Returns the boolean value of the parameter named `key`.
    pub fn get_bool(&self, key: ParameterKey) -> (r: Result<bool, Error>)
        ensures
            spec_bool_value(self.value_of(key)) matches Some(b) ==> (r matches Ok(rb) && rb == b),
            spec_bool_value(self.value_of(key)) is None ==> (r matches Err(e) && e.is_native_fail()),
    {
        match self.get_value(key) {
            Some(ParameterValue::I32(v)) => Ok(v == 1),
            _ => Err(Error::NativeResult(RESULT_FAIL)),
        }
    }

    /// Sets a signed 32-bit value for the parameter named `key`.
    pub fn set_i32(&mut self, key: ParameterKey, value: i32)
        ensures
            final(self).value_of(key) == Some(ParameterValue::I32(value)),
            forall|other: ParameterKey|
                other != key ==> #[trigger] final(self).value_of(other) == old(self).value_of(
                    other,
                ),
    {
        self.set_value(key, ParameterValue::I32(value));
    }

    /// Returns the signed 32-bit value of the parameter named `key`.
    pub fn get_i32(&self, key: ParameterKey) -> (r: Result<i32, Error>)
        ensures
            self.value_of(key) matches Some(ParameterValue::I32(v)) ==> (r matches Ok(u) && u == v),
            !(self.value_of(key) matches Some(ParameterValue::I32(_))) ==> (r matches Err(e) && e.is_native_fail()),
    {
        match self.get_value(key) {
            Some(ParameterValue::I32(v)) => Ok(v),
            _ => Err(Error::NativeResult(RESULT_FAIL)),
        }
    }

    /// Sets an unsigned 32-bit value for the parameter named `key`.
    pub fn set_u32(&mut self, key: ParameterKey, value: u32)
        ensures
            final(self).value_of(key) == Some(ParameterValue::U32(value)),
            forall|other: ParameterKey|
                other != key ==> #[trigger] final(self).value_of(other) == old(self).value_of(
                    other,
                ),
    {
        self.set_value(key, ParameterValue::U32(value));
    }

    /// Returns the unsigned 32-bit value of the parameter named `key`.
    pub fn get_u32(&self, key: ParameterKey) -> (r: Result<u32, Error>)
        ensures
            spec_u32_value(self.value_of(key)) matches Some(v) ==> (r matches Ok(u) && u == v),
            spec_u32_value(self.value_of(key)) is None ==> (r matches Err(e) && e.is_native_fail()),
    {
        match self.get_value(key) {
            Some(ParameterValue::U32(v)) => Ok(v),
            _ => Err(Error::NativeResult(RESULT_FAIL)),
        }
    }

    /// Sets an unsigned 64-bit value for the parameter named `key`.
    pub fn set_u64(&mut self, key: ParameterKey, value: u64)
        ensures
            final(self).value_of(key) == Some(ParameterValue::U64(value)),
            forall|other: ParameterKey|
                other != key ==> #[trigger] final(self).value_of(other) == old(self).value_of(
                    other,
                ),
    {
        self.set_value(key, ParameterValue::U64(value));
    }

    /// Returns the unsigned 64-bit value of the parameter named `key`.
    pub fn get_u64(&self, key: ParameterKey) -> (r: Result<u64, Error>)
        ensures
            self.value_of(key) matches Some(ParameterValue::U64(v)) ==> (r matches Ok(u) && u == v),
            !(self.value_of(key) matches Some(ParameterValue::U64(_))) ==> (r matches Err(e) && e.is_native_fail()),
    {
        match self.get_value(key) {
            Some(ParameterValue::U64(v)) => Ok(v),
            _ => Err(Error::NativeResult(RESULT_FAIL)),
        }
    }

    /// Sets a 32-bit floating-point value, given as its bit pattern, for
    /// the parameter named `key`.
    pub fn set_f32_bits(&mut self, key: ParameterKey, value: u32)
        ensures
            final(self).value_of(key) == Some(ParameterValue::F32Bits(value)),
            forall|other: ParameterKey|
                other != key ==> #[trigger] final(self).value_of(other) == old(self).value_of(
                    other,
                ),
    {
        self.set_value(key, ParameterValue::F32Bits(value));
    }

    /// Returns the bit pattern of the 32-bit floating-point value of the
    /// parameter named `key`.
    pub fn get_f32_bits(&self, key: ParameterKey) -> (r: Result<u32, Error>)
        ensures
            self.value_of(key) matches Some(ParameterValue::F32Bits(v)) ==> (r matches Ok(u) && u == v),
            !(self.value_of(key) matches Some(ParameterValue::F32Bits(_))) ==> (r matches Err(e) && e.is_native_fail()),
    {
        match self.get_value(key) {
            Some(ParameterValue::F32Bits(v)) => Ok(v),
            _ => Err(Error::NativeResult(RESULT_FAIL)),
        }
    }

    /// Sets a 64-bit floating-point value, given as its bit pattern, for
    /// the parameter named `key`.
    pub fn set_f64_bits(&mut self, key: ParameterKey, value: u64)
        ensures
            final(self).value_of(key) == Some(ParameterValue::F64Bits(value)),
            forall|other: ParameterKey|
                other != key ==> #[trigger] final(self).value_of(other) == old(self).value_of(
                    other,
                ),
    {
        self.set_value(key, ParameterValue::F64Bits(value));
    }

    /// Returns the bit pattern of the 64-bit floating-point value of the
    /// parameter named `key`.
    pub fn get_f64_bits(&self, key: ParameterKey) -> (r: Result<u64, Error>)
        ensures
            self.value_of(key) matches Some(ParameterValue::F64Bits(v)) ==> (r matches Ok(u) && u == v),
            !(self.value_of(key) matches Some(ParameterValue::F64Bits(_))) ==> (r matches Err(e) && e.is_native_fail()),
    {
        match self.get_value(key) {
            Some(ParameterValue::F64Bits(v)) => Ok(v),
            _ => Err(Error::NativeResult(RESULT_FAIL)),
        }
    }

    /// Sets a type-erased pointer, given as its address, for the parameter
    /// named `key`.
    pub fn set_ptr(&mut self, key: ParameterKey, value: u64)
        ensures
            final(self).value_of(key) == Some(ParameterValue::Pointer(value)),
            forall|other: ParameterKey|
                other != key ==> #[trigger] final(self).value_of(other) == old(self).value_of(
                    other,
                ),
    {
        self.set_value(key, ParameterValue::Pointer(value));
    }

    /// Returns the address of the type-erased pointer stored under `key`.
    pub fn get_ptr(&self, key: ParameterKey) -> (r: Result<u64, Error>)
        ensures
            self.value_of(key) matches Some(ParameterValue::Pointer(v)) ==> (r matches Ok(u) && u == v),
            !(self.value_of(key) matches Some(ParameterValue::Pointer(_))) ==> (r matches Err(e) && e.is_native_fail()),
    {
        match self.get_value(key) {
            Some(ParameterValue::Pointer(v)) => Ok(v),
            _ => Err(Error::NativeResult(RESULT_FAIL)),
        }
    }

    /// Returns [`Ok`] if this capability map claims that the super-sampling
    /// feature can be used.
    ///
    /// The driver-freshness gate is consulted first: when the map reports
    /// that an updated driver is needed, the check stops with an error
    /// embedding the required version, and the availability flag is not
    /// consulted at all (a stale driver can report "not available" for
    /// reasons unrelated to hardware capability).  Only with a fresh
    /// driver does the availability flag decide.
    pub fn supports_super_sampling(&self) -> (r: Result<(), Error>)
        ensures
            r is Ok <==> spec_bool_value(
                self.value_of(ParameterKey::SuperSamplingNeedsUpdatedDriver),
            ) == Some(false) && spec_bool_value(
                self.value_of(ParameterKey::SuperSamplingAvailable),
            ) == Some(true),
            spec_supports_verdict(
                spec_bool_value(self.value_of(ParameterKey::SuperSamplingNeedsUpdatedDriver)),
                spec_u32_value(self.value_of(ParameterKey::SuperSamplingMinDriverVersionMajor)),
                spec_u32_value(self.value_of(ParameterKey::SuperSamplingMinDriverVersionMinor)),
                spec_bool_value(self.value_of(ParameterKey::SuperSamplingAvailable)),
                SUPER_SAMPLING_DISPLAY_NAME@,
                r,
            ),
    {
        self.supports_feature(
            SUPER_SAMPLING_DISPLAY_NAME,
            ParameterKey::SuperSamplingNeedsUpdatedDriver,
            ParameterKey::SuperSamplingMinDriverVersionMajor,
            ParameterKey::SuperSamplingMinDriverVersionMinor,
            ParameterKey::SuperSamplingAvailable,
        )
    }

    /// Returns [`Ok`] if this capability map claims that the
    /// ray-reconstruction feature can be used.
    ///
    /// The check runs the same two-step protocol as
    /// [`Self::supports_super_sampling`], over the denoising parameter
    /// names.
    pub fn supports_ray_reconstruction(&self) -> (r: Result<(), Error>)
        ensures
            r is Ok <==> spec_bool_value(
                self.value_of(ParameterKey::SuperSamplingDenoisingNeedsUpdatedDriver),
            ) == Some(false) && spec_bool_value(
                self.value_of(ParameterKey::SuperSamplingDenoisingAvailable),
            ) == Some(true),
            spec_supports_verdict(
                spec_bool_value(
                    self.value_of(ParameterKey::SuperSamplingDenoisingNeedsUpdatedDriver),
                ),
                spec_u32_value(
                    self.value_of(ParameterKey::SuperSamplingDenoisingMinDriverVersionMajor),
                ),
                spec_u32_value(
                    self.value_of(ParameterKey::SuperSamplingDenoisingMinDriverVersionMinor),
                ),
                spec_bool_value(self.value_of(ParameterKey::SuperSamplingDenoisingAvailable)),
                RAY_RECONSTRUCTION_DISPLAY_NAME@,
                r,
            ),
    {
        self.supports_feature(
            RAY_RECONSTRUCTION_DISPLAY_NAME,
            ParameterKey::SuperSamplingDenoisingNeedsUpdatedDriver,
            ParameterKey::SuperSamplingDenoisingMinDriverVersionMajor,
            ParameterKey::SuperSamplingDenoisingMinDriverVersionMinor,
            ParameterKey::SuperSamplingDenoisingAvailable,
        )
    }

    /// Runs the two-step capability check for one feature: the
    /// driver-freshness gate first, then the availability flag.
    fn supports_feature(
        &self,
        display_name: &str,
        needs_driver_key: ParameterKey,
        major_key: ParameterKey,
        minor_key: ParameterKey,
        available_key: ParameterKey,
    ) -> (r: Result<(), Error>)
        ensures
            r is Ok <==> spec_bool_value(self.value_of(needs_driver_key)) == Some(false)
                && spec_bool_value(self.value_of(available_key)) == Some(true),
            spec_supports_verdict(
                spec_bool_value(self.value_of(needs_driver_key)),
                spec_u32_value(self.value_of(major_key)),
                spec_u32_value(self.value_of(minor_key)),
                spec_bool_value(self.value_of(available_key)),
                display_name@,
                r,
            ),
    {
        match self.get_bool(needs_driver_key) {
            Err(e) => Err(e),
            Ok(true) => {
                let major = match self.get_u32(major_key) {
                    Ok(v) => v,
                    Err(e) => {
                        return Err(e);
                    },
                };
                let minor = match self.get_u32(minor_key) {
                    Ok(v) => v,
                    Err(e) => {
                        return Err(e);
                    },
                };
                Err(Error::Other(driver_update_message(display_name, major, minor)))
            },
            Ok(false) => match self.get_bool(available_key) {
                Ok(true) => Ok(()),
                Ok(false) => Err(Error::Other(not_supported_message(display_name))),
                Err(e) => Err(e),
            },
        }
    }

    /// Returns `true` if the super-sampling feature reported a successful
    /// initialisation in this parameter map.
    pub fn is_super_sampling_initialised(&self) -> (r: bool)
        ensures
            r == (self.value_of(ParameterKey::SuperSamplingFeatureInitResult) == Some(
                ParameterValue::I32(1),
            )),
    {
        match self.get_bool(ParameterKey::SuperSamplingFeatureInitResult) {
            Ok(b) => b,
            Err(_) => false,
        }
    }

    /// Returns `true` if the ray-reconstruction feature reported a
    /// successful initialisation in this parameter map.
    pub fn is_ray_reconstruction_initialised(&self) -> (r: bool)
        ensures
            r == (self.value_of(ParameterKey::SuperSamplingDenoisingFeatureInitResult) == Some(
                ParameterValue::I32(1),
            )),
    {
        match self.get_bool(ParameterKey::SuperSamplingDenoisingFeatureInitResult) {
            Ok(b) => b,
            Err(_) => false,
        }
    }

    /// Returns the raw entries of the parameter map, oldest first.
    pub fn get_params(&self) -> (r: &Vec<(ParameterKey, ParameterValue)>)
        ensures
            forall|key: ParameterKey| #[trigger] lookup(r@, key) == self.value_of(key),
    {
        &self.entries
    }
}

} // verus!
