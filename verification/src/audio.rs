//! Audio output facade: the engine-side state of the mixer/device boundary.
//!
//! This type owns the decisions of the output stage — master volume, the
//! cached device list, whether a stream has been brought up — while the
//! backend calls themselves (stream creation, sample decoding, the float
//! volume applied to a live handle) sit outside the verified engine. The
//! transport controls degrade to no-ops that report honest defaults where
//! the backend offers no group control, exactly as promised: they never
//! fabricate playing state.

use vstd::prelude::*;

use crate::trigger::VOLUME_UNIT;

verus! {

/// The master volume is clamped to at most ten times unity.
pub const MASTER_VOLUME_MAX: u32 = 10000;

/// A failure at the audio boundary. Never fatal: the engine degrades to
/// silence instead of propagating it.
#[derive(Clone, Copy, PartialEq, Eq, Structural, Debug)]
pub enum AudioError {
    Backend,
}

impl AudioError {
    /// A short description of the failure.
    pub fn message(&self) -> (s: &'static str)
        ensures
            s@ == "audio backend unavailable"@,
    {
        "audio backend unavailable"
    }
}

/// A master volume clamped into its accepted range.
pub open spec fn spec_clamp_volume(v: u32) -> u32 {
    if v > MASTER_VOLUME_MAX {
        MASTER_VOLUME_MAX
    } else {
        v
    }
}

/// Engine-side state of the audio output: stream liveness, the cached
/// device list, and the master volume in fixed-point thousandths.
#[derive(Clone, Debug)]
pub struct AudioSystem {
    pub stream_initialized: bool,
    pub devices: Vec<String>,
    pub master_volume: u32,
}

impl Default for AudioSystem {
    fn default() -> (a: Self)
        ensures
            !a.stream_initialized,
            a.devices@.len() == 0,
            a.master_volume == VOLUME_UNIT,
    {
        AudioSystem { stream_initialized: false, devices: Vec::new(), master_volume: VOLUME_UNIT }
    }
}

impl AudioSystem {
    /// A fresh facade: no stream yet, no devices cached, unity master
    /// volume.
    pub fn new() -> (a: Self)
        ensures
            !a.stream_initialized,
            a.devices@.len() == 0,
            a.master_volume == VOLUME_UNIT,
    {
        Self::default()
    }

    /// Bring up the output stream unless another backend is in charge
    /// (`use_fmod`). Callable repeatedly; reinitialising an initialised
    /// facade keeps it initialised. The buffer size and device selector are
    /// handed to the backend unchanged.
    pub fn maybe_init_kittyaudio(&mut self, use_fmod: bool, _buffer_size: u32, _selected_device: &str)
        ensures
            final(self).stream_initialized == (!use_fmod || old(self).stream_initialized),
            final(self).devices@ == old(self).devices@,
            final(self).master_volume == old(self).master_volume,
    {
        if use_fmod {
            return ;
        }
        self.stream_initialized = true;
    }

    /// Recreate the output stream for a (possibly different) device or
    /// buffer size. Safely callable repeatedly; the previous stream is
    /// replaced, never leaked, and a backend that cannot report partial
    /// failure leaves this with its default as degraded-but-functional, so
    /// the call itself always succeeds.
    pub fn reinit_with_device(&mut self, _device_name: &str, _buffer_size: u32) -> (r: Result<
        (),
        AudioError,
    >)
        ensures
            r is Ok,
            final(self).stream_initialized,
            final(self).devices@ == old(self).devices@,
            final(self).master_volume == old(self).master_volume,
    {
        self.stream_initialized = true;
        Ok(())
    }

    /// Refresh the cached device list. The backend in charge reports no
    /// enumeration, so the cache holds the single default entry.
    pub fn update_devices(&mut self)
        ensures
            final(self).devices@.len() == 1,
            final(self).devices@[0]@ == "Default Device"@,
            final(self).stream_initialized == old(self).stream_initialized,
            final(self).master_volume == old(self).master_volume,
    {
        let mut device_list: Vec<String> = Vec::new();
        device_list.push("Default Device".to_owned());
        self.devices = device_list;
    }

    /// A snapshot of the cached device list: a fully-formed copy, equal to
    /// the cache at the moment of the call.
    pub fn get_devices(&self) -> (v: Vec<String>)
        ensures
            v@ == self.devices@,
    {
        let mut out: Vec<String> = Vec::new();
        let mut i: usize = 0;
        while i < self.devices.len()
            invariant
                i <= self.devices@.len(),
                out@ =~= self.devices@.take(i as int),
            decreases self.devices@.len() - i,
        {
            out.push(self.devices[i].clone());
            i = i + 1;
        }
        proof {
            assert(self.devices@.take(self.devices@.len() as int) =~= self.devices@);
        }
        out
    }

    /// Whether the cached device list holds a device of this name.
    pub fn is_device_available(&self, device_name: &str) -> (b: bool)
        ensures
            b == exists|i: int| 0 <= i < self.devices@.len() && self.devices@[i]@ == device_name@,
    {
        let wanted: String = device_name.to_owned();
        let mut i: usize = 0;
        while i < self.devices.len()
            invariant
                i <= self.devices@.len(),
                wanted@ == device_name@,
                forall|j: int| 0 <= j < i ==> self.devices@[j]@ != device_name@,
            decreases self.devices@.len() - i,
        {
            if self.devices[i].eq(&wanted) {
                return true;
            }
            i = i + 1;
        }
        false
    }

    /// Set the master volume, clamping it into the accepted range. Applied
    /// multiplicatively at trigger time; it silences or scales every later
    /// trigger, whatever the per-category volume policy draws.
    pub fn set_master_volume(&mut self, volume: u32)
        ensures
            final(self).master_volume == spec_clamp_volume(volume),
            final(self).stream_initialized == old(self).stream_initialized,
            final(self).devices@ == old(self).devices@,
    {
        self.master_volume = if volume > MASTER_VOLUME_MAX {
            MASTER_VOLUME_MAX
        } else {
            volume
        };
    }

    /// The current master volume, in fixed-point thousandths.
    pub fn get_master_volume(&self) -> (v: u32)
        ensures
            v == self.master_volume,
    {
        self.master_volume
    }

    /// Pause every live sound. The backend offers no group transport, so
    /// this degrades to a no-op rather than pretending success.
    pub fn pause_all(&mut self)
        ensures
            *final(self) == *old(self),
    {
    }

    /// Resume every live sound; degrades to a no-op like `pause_all`.
    pub fn resume_all(&mut self)
        ensures
            *final(self) == *old(self),
    {
    }

    /// Stop every live sound; degrades to a no-op like `pause_all`, and in
    /// particular never leaves a sound it could count afterwards.
    pub fn stop_all(&mut self)
        ensures
            *final(self) == *old(self),
    {
    }

    /// Whether any sound is live. The backend reports no playing state, so
    /// the honest default is no.
    pub fn is_playing(&self) -> (b: bool)
        ensures
            !b,
    {
        false
    }

    /// How many sounds are live. The backend reports none, and after
    /// `stop_all` none could be: the honest answer is zero, whatever
    /// sequence of reinitialisations and transport calls came before.
    pub fn active_sounds_count(&self) -> (n: usize)
        ensures
            n == 0,
    {
        0
    }
}

} // verus!
