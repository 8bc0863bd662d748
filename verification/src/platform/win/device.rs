//! The device manager: one logical device, its ring of pool textures, and the
//! cached state of the two conversion paths.
//!
//! The manager decides; the platform acts. Every operation that needs the
//! GPU comes in two halves: one that says what to ask of the platform, and
//! one that takes in how that went.

use vstd::prelude::*;
use vstd::arithmetic::div_mod::{
    lemma_add_mod_noop_right,
    lemma_fundamental_div_mod,
    lemma_mod_add_multiples_vanish,
    lemma_mod_bound,
    lemma_mod_self_0,
    lemma_small_mod,
};
use crate::common::{AdapterVendor, DataFormat};
use crate::platform::win::adapter::{
    first_decisive,
    lemma_first_decisive_prefix,
    with_luid,
    AdapterDesc,
    D3D_FEATURE_LEVEL_11_0,
};
use crate::platform::win::error::{ParameterFault, WinPlatformError};
use crate::platform::win::shader::{ConvertOutcome, ConvertPlan, ShaderCache};
use crate::platform::win::texture::{Handle, Texture, TextureDesc};
use crate::platform::win::video_processor::{
    process_plan,
    to_i32_bits,
    ContentDesc,
    InputViewDesc,
    OutputViewDesc,
    ProcessOutcome,
    ProcessPlan,
    ProcessorCache,
    Rect,
    StreamDesc,
    D3D11_VIDEO_FRAME_FORMAT_PROGRESSIVE,
    D3D11_VPIV_DIMENSION_TEXTURE2D,
    D3D11_VPOV_DIMENSION_TEXTURE2D,
};

verus! {

/// The flags a device is created with: video support and BGRA support.
pub const DEVICE_CREATION_FLAGS: u32 = 0x820;

/// Polls of the completion fence that come without a sleep before them.
pub const QUERY_BUSY_POLLS: u32 = 100;

/// Polls of the completion fence after which the wait is given up.
pub const QUERY_MAX_POLLS: u32 = 1000;

/// The decoder profile for H.264 (VLD, no film grain), as a GUID.
pub const DECODER_PROFILE_H264_VLD_NOFGT: u128 = 0x1b81be68_a0c7_11d3_b984_00c04f2e73c5;

/// The decoder profile for H.265 (VLD, main), as a GUID.
pub const DECODER_PROFILE_HEVC_VLD_MAIN: u128 = 0x5b11d51b_2f4c_4452_bcc3_09f2a1160cc0;

/// The native objects of one device.
#[derive(Debug, Clone, Copy, PartialEq, Eq, Structural)]
pub struct DeviceHandles {
    pub device: Handle,
    pub context: Handle,
    pub video_device: Handle,
    pub video_context: Handle,
    pub video_context1: Handle,
}

pub const D3D11_QUERY_EVENT: i32 = 0;

/// Where a manager's device comes from.
#[derive(Debug, Clone, Copy, PartialEq, Eq)]
pub enum DeviceSource {
    /// A device of the caller's is wrapped; its context is fetched from it.
    Existing(Handle),
    /// A device is created on the adapter at this index of the enumeration.
    Adapter(usize),
}

/// What bringing up a manager asks of the platform: the device from
/// `source`, created with `creation_flags` at `feature_level` where it is
/// created; then, on any device, multithread protection on the context, a
/// completion fence of kind `query`, and the video views of device and
/// context.
#[derive(Debug, Clone, Copy, PartialEq, Eq)]
pub struct DevicePlan {
    pub source: DeviceSource,
    pub creation_flags: u32,
    pub feature_level: i32,
    pub multithread_protected: bool,
    pub query: i32,
}

impl DevicePlan {
    /// The plan for a device from `source`.
    pub open spec fn from_source(source: DeviceSource) -> DevicePlan {
        DevicePlan {
            source,
            creation_flags: DEVICE_CREATION_FLAGS,
            feature_level: D3D_FEATURE_LEVEL_11_0,
            multithread_protected: true,
            query: D3D11_QUERY_EVENT,
        }
    }
}

/// What the manager asks for after looking at its pool.
#[derive(Debug, Clone, Copy, PartialEq, Eq)]
pub enum PoolRequest {
    /// The pool fits; nothing to do.
    Keep,
    /// The pool was discarded: create `count` textures of `desc`, and report
    /// each attempt with `texture_created`.
    Allocate { desc: TextureDesc, count: usize },
}

/// The state of a device manager, as contracts speak of it.
pub struct DeviceState {
    pub adapter: AdapterDesc,
    pub handles: DeviceHandles,
    /// The pool's slots in order; a slot may be empty.
    pub pool: Seq<Option<Texture>>,
    /// The slot in use.
    pub cursor: usize,
    /// How many textures a full pool holds.
    pub pool_size: usize,
    pub video: ProcessorCache,
    pub shader: ShaderCache,
}

impl DeviceState {
    /// The cursor stays inside the ring; in a ring of no slots it rests at 0.
    pub open spec fn wf(self) -> bool {
        if self.pool_size == 0 {
            self.cursor == 0
        } else {
            self.cursor < self.pool_size
        }
    }

    /// A manager fresh from construction.
    pub open spec fn fresh(
        adapter: AdapterDesc,
        handles: DeviceHandles,
        pool_size: usize,
    ) -> DeviceState {
        DeviceState {
            adapter,
            handles,
            pool: Seq::empty(),
            cursor: 0,
            pool_size,
            video: ProcessorCache { last_content_desc: None, enumerator: false, processor: false },
            shader: ShaderCache { last_width: 0, last_height: 0 },
        }
    }

    /// Whether the pool can serve frames of `width` by `height` as it is.
    /// Only the first slot is looked at: all textures of a pool are made
    /// alike.
    pub open spec fn pool_fits(self, width: u32, height: u32) -> bool {
        &&& self.pool.len() > 0
        &&& self.pool[0] matches Some(texture)
        &&& texture.desc.fits_pool(width, height)
    }

    /// What `ensure_texture` asks for.
    pub open spec fn pool_request(self, width: u32, height: u32) -> PoolRequest {
        if self.pool_fits(width, height) {
            PoolRequest::Keep
        } else {
            PoolRequest::Allocate { desc: TextureDesc::pooled(width, height), count: self.pool_size }
        }
    }

    /// The state after `ensure_texture`: untouched if the pool fits, with an
    /// empty pool otherwise.
    pub open spec fn ensured(self, width: u32, height: u32) -> DeviceState {
        if self.pool_fits(width, height) {
            self
        } else {
            DeviceState { pool: Seq::empty(), ..self }
        }
    }

    /// The state after one more texture went into the pool.
    pub open spec fn with_texture(self, texture: Texture) -> DeviceState {
        DeviceState { pool: self.pool.push(Some(texture)), ..self }
    }

    /// The state after `count` textures of `desc` went into the pool, with
    /// the handles that `handles` gives by position.
    pub open spec fn filled(self, desc: TextureDesc, handles: Seq<Handle>) -> DeviceState
        decreases handles.len(),
    {
        if handles.len() == 0 {
            self
        } else {
            self.filled(desc, handles.drop_last()).with_texture(
                Texture { handle: handles.last(), desc },
            )
        }
    }

    /// The pool with empty slots appended until the cursor's slot exists.
    pub open spec fn padded_pool(self) -> Seq<Option<Texture>> {
        if self.pool.len() > self.cursor {
            self.pool
        } else {
            self.pool + Seq::new((self.cursor + 1 - self.pool.len()) as nat, |i: int| None::<Texture>)
        }
    }

    /// The state after `set_texture`: the cursor's slot holds the texture.
    pub open spec fn with_current(self, texture: Texture) -> DeviceState {
        DeviceState { pool: self.padded_pool().update(self.cursor as int, Some(texture)), ..self }
    }

    /// The texture in the cursor's slot.
    pub open spec fn current_texture(self) -> Option<Texture> {
        if self.cursor < self.pool.len() {
            self.pool[self.cursor as int]
        } else {
            None
        }
    }

    /// The state after `next`: the cursor one slot on, around the ring.
    pub open spec fn advanced(self) -> DeviceState {
        DeviceState { cursor: ((self.cursor + 1) % (self.pool_size as int)) as usize, ..self }
    }

    /// The state after `count` calls of `next`.
    pub open spec fn advanced_by(self, count: nat) -> DeviceState
        decreases count,
    {
        if count == 0 {
            self
        } else {
            self.advanced_by((count - 1) as nat).advanced()
        }
    }
}

/// A device with its texture pool and conversion state.
#[derive(Debug, Clone, PartialEq, Eq)]
pub struct NativeDevice {
    adapter: AdapterDesc,
    handles: DeviceHandles,
    textures: Vec<Option<Texture>>,
    current_index: usize,
    pool_size: usize,
    video: ProcessorCache,
    shader: ShaderCache,
}

impl View for NativeDevice {
    type V = DeviceState;

    closed spec fn view(&self) -> DeviceState {
        DeviceState {
            adapter: self.adapter,
            handles: self.handles,
            pool: self.textures@,
            cursor: self.current_index,
            pool_size: self.pool_size,
            video: self.video,
            shader: self.shader,
        }
    }
}

impl NativeDevice {
    /// Finds the adapter to create a device on: the index of the first
    /// description with the LUID given.
    ///
    /// Descriptions are looked at in order, up to the first match. An
    /// unreadable one before it ends the search with `DeviceCreationFailed`;
    /// with neither, the answer is `AdapterNotFound`.
    pub fn init_from_luid(luid: i64, descs: &Vec<Result<AdapterDesc, i32>>) -> (r: Result<
        usize,
        WinPlatformError,
    >)
        ensures
            match first_decisive(descs@, with_luid(luid as int)) {
                Some(i) => match descs@[i] {
                    Ok(_) => r == Ok::<usize, WinPlatformError>(i as usize),
                    Err(hr) => r == Err::<usize, WinPlatformError>(
                        WinPlatformError::DeviceCreationFailed(hr),
                    ),
                },
                None => r == Err::<usize, WinPlatformError>(WinPlatformError::AdapterNotFound),
            },
    {
        let mut i: usize = 0;
        while i < descs.len()
            invariant
                i <= descs.len(),
                first_decisive(descs@.take(i as int), with_luid(luid as int)) is None,
            decreases descs.len() - i,
        {
            proof {
                assert(descs@.take(i + 1).drop_last() == descs@.take(i as int));
            }
            match &descs[i] {
                Err(hr) => {
                    proof {
                        lemma_first_decisive_prefix(descs@, with_luid(luid as int), i + 1);
                    }
                    return Err(WinPlatformError::DeviceCreationFailed(*hr));
                },
                Ok(desc) => {
                    if desc.get_luid() == luid {
                        proof {
                            lemma_first_decisive_prefix(descs@, with_luid(luid as int), i + 1);
                        }
                        return Ok(i);
                    }
                },
            }
            i += 1;
        }
        proof {
            assert(descs@.take(i as int) == descs@);
        }
        Err(WinPlatformError::AdapterNotFound)
    }

    /// Plans the bring-up of a manager: on the caller's device if one is
    /// supplied, whatever the adapters are; else on a device to be created on
    /// the adapter that `init_from_luid` finds, with its errors.
    pub fn plan(
        luid: i64,
        device: Option<Handle>,
        descs: &Vec<Result<AdapterDesc, i32>>,
    ) -> (r: Result<DevicePlan, WinPlatformError>)
        ensures
            match device {
                Some(handle) => r == Ok::<DevicePlan, WinPlatformError>(
                    DevicePlan::from_source(DeviceSource::Existing(handle)),
                ),
                None => match first_decisive(descs@, with_luid(luid as int)) {
                    Some(i) => match descs@[i] {
                        Ok(_) => r == Ok::<DevicePlan, WinPlatformError>(
                            DevicePlan::from_source(DeviceSource::Adapter(i as usize)),
                        ),
                        Err(hr) => r == Err::<DevicePlan, WinPlatformError>(
                            WinPlatformError::DeviceCreationFailed(hr),
                        ),
                    },
                    None => r == Err::<DevicePlan, WinPlatformError>(
                        WinPlatformError::AdapterNotFound,
                    ),
                },
            },
    {
        let source = match device {
            Some(handle) => DeviceSource::Existing(handle),
            None => match Self::init_from_luid(luid, descs) {
                Ok(index) => DeviceSource::Adapter(index),
                Err(e) => {
                    return Err(e);
                },
            },
        };
        Ok(
            DevicePlan {
                source,
                creation_flags: DEVICE_CREATION_FLAGS,
                feature_level: D3D_FEATURE_LEVEL_11_0,
                multithread_protected: true,
                query: D3D11_QUERY_EVENT,
            },
        )
    }

    /// Takes charge of a device.
    ///
    /// `feature_level` is the level a device created for this manager came up
    /// at, and `None` for a device that the caller supplied. A created device
    /// below level 11.0 is refused. The new manager has an empty pool, its
    /// cursor at slot 0 and nothing cached.
    pub fn new(
        adapter: AdapterDesc,
        handles: DeviceHandles,
        feature_level: Option<i32>,
        pool_size: usize,
    ) -> (r: Result<NativeDevice, WinPlatformError>)
        ensures
            match feature_level {
                Some(level) if level != D3D_FEATURE_LEVEL_11_0 => r == Err::<
                    NativeDevice,
                    WinPlatformError,
                >(WinPlatformError::UnsupportedFeatureLevel(level)),
                _ => r is Ok && r->Ok_0@ == DeviceState::fresh(adapter, handles, pool_size),
            },
            r is Ok ==> r->Ok_0@.wf(),
    {
        match feature_level {
            Some(level) => {
                if level != D3D_FEATURE_LEVEL_11_0 {
                    return Err(WinPlatformError::UnsupportedFeatureLevel(level));
                }
            },
            None => {},
        }
        Ok(
            NativeDevice {
                adapter,
                handles,
                textures: Vec::new(),
                current_index: 0,
                pool_size,
                video: ProcessorCache::new(),
                shader: ShaderCache::new(),
            },
        )
    }

    pub fn device(&self) -> (handle: Handle)
        ensures
            handle == self@.handles.device,
    {
        self.handles.device
    }

    pub fn context(&self) -> (handle: Handle)
        ensures
            handle == self@.handles.context,
    {
        self.handles.context
    }

    pub fn video_device(&self) -> (handle: Handle)
        ensures
            handle == self@.handles.video_device,
    {
        self.handles.video_device
    }

    pub fn video_context(&self) -> (handle: Handle)
        ensures
            handle == self@.handles.video_context,
    {
        self.handles.video_context
    }

    pub fn video_context1(&self) -> (handle: Handle)
        ensures
            handle == self@.handles.video_context1,
    {
        self.handles.video_context1
    }

    /// The vendor of the adapter that the device is on.
    pub fn get_vendor(&self) -> (vendor: AdapterVendor)
        ensures
            vendor == AdapterVendor::of_vendor_id(self@.adapter.vendor_id as int),
    {
        AdapterVendor::from_vendor_id(self.adapter.vendor_id)
    }

    /// How many textures a full pool holds.
    pub fn pool_size(&self) -> (n: usize)
        ensures
            n == self@.pool_size,
    {
        self.pool_size
    }

    /// The slot in use.
    pub fn current_index(&self) -> (index: usize)
        ensures
            index == self@.cursor,
    {
        self.current_index
    }

    /// How many slots the pool has at the moment.
    pub fn texture_count(&self) -> (n: usize)
        ensures
            n == self@.pool.len(),
    {
        self.textures.len()
    }

    /// The texture in a slot, if the slot exists and is filled.
    pub fn texture_at(&self, index: usize) -> (texture: Option<Texture>)
        ensures
            texture == (if index < self@.pool.len() {
                self@.pool[index as int]
            } else {
                None
            }),
    {
        if index < self.textures.len() {
            self.textures[index]
        } else {
            None
        }
    }

    /// Makes sure of a pool for frames of `width` by `height`.
    ///
    /// A pool whose first texture has that size, is BGRA, shareable and of
    /// default usage is kept as it is. Any other pool is discarded whole, and
    /// the answer says what to create in its place. The cursor stays.
    pub fn ensure_texture(&mut self, width: u32, height: u32) -> (request: PoolRequest)
        ensures
            request == old(self)@.pool_request(width, height),
            final(self)@ == old(self)@.ensured(width, height),
            old(self)@.wf() ==> final(self)@.wf(),
    {
        if self.textures.len() > 0 {
            match &self.textures[0] {
                Some(existing) => {
                    if existing.desc.matches_pool(width, height) {
                        return PoolRequest::Keep;
                    }
                },
                None => {},
            }
        }
        self.textures.clear();
        assert(self.textures@ =~= Seq::empty());
        PoolRequest::Allocate { desc: TextureDesc::new_pooled(width, height), count: self.pool_size }
    }

    /// Takes in one attempt to create a pool texture of `desc`.
    ///
    /// A texture that was created goes into the next slot. A failed attempt
    /// changes nothing and comes back as `DeviceCreationFailed`: the pool
    /// stays as far as it was filled.
    pub fn texture_created(&mut self, desc: TextureDesc, created: Result<Handle, i32>) -> (r: Result<
        (),
        WinPlatformError,
    >)
        ensures
            match created {
                Ok(handle) => r is Ok && final(self)@ == old(self)@.with_texture(
                    Texture { handle, desc },
                ),
                Err(hr) => r == Err::<(), WinPlatformError>(
                    WinPlatformError::DeviceCreationFailed(hr),
                ) && final(self)@ == old(self)@,
            },
            old(self)@.wf() ==> final(self)@.wf(),
    {
        match created {
            Ok(handle) => {
                self.textures.push(Some(Texture { handle, desc }));
                Ok(())
            },
            Err(hr) => Err(WinPlatformError::DeviceCreationFailed(hr)),
        }
    }

    /// Puts a texture of the caller's into the slot in use, in place of what
    /// was there. A pool too short for the cursor grows by empty slots first.
    pub fn set_texture(&mut self, texture: Texture)
        ensures
            final(self)@ == old(self)@.with_current(texture),
            old(self)@.wf() ==> final(self)@.wf(),
    {
        while self.textures.len() <= self.current_index
            invariant
                self.current_index == old(self).current_index,
                self.pool_size == old(self).pool_size,
                self.adapter == old(self).adapter,
                self.handles == old(self).handles,
                self.video == old(self).video,
                self.shader == old(self).shader,
                old(self).textures@.len() <= self.textures@.len(),
                self.textures@.len() <= old(self)@.padded_pool().len(),
                self.textures@ =~= old(self)@.padded_pool().take(self.textures@.len() as int),
            decreases self.current_index + 1 - self.textures.len(),
        {
            self.textures.push(None);
        }
        assert(self.textures@ =~= old(self)@.padded_pool());
        self.textures[self.current_index] = Some(texture);
    }

    /// The texture whose shared handle is to be exported: the one in the
    /// slot in use. Without such a slot, or with an empty one, the answer is
    /// `InvalidParameter`.
    pub fn get_shared_handle(&self) -> (r: Result<Handle, WinPlatformError>)
        ensures
            r == (if self@.pool.len() <= self@.cursor {
                Err::<Handle, WinPlatformError>(
                    WinPlatformError::InvalidParameter(ParameterFault::NoTextureAvailable),
                )
            } else {
                match self@.pool[self@.cursor as int] {
                    Some(texture) => Ok::<Handle, WinPlatformError>(texture.handle),
                    None => Err::<Handle, WinPlatformError>(
                        WinPlatformError::InvalidParameter(ParameterFault::NoTextureAtCurrentIndex),
                    ),
                }
            }),
    {
        if self.textures.len() <= self.current_index {
            return Err(WinPlatformError::InvalidParameter(ParameterFault::NoTextureAvailable));
        }
        match &self.textures[self.current_index] {
            Some(texture) => Ok(texture.handle),
            None => Err(WinPlatformError::InvalidParameter(ParameterFault::NoTextureAtCurrentIndex)),
        }
    }

    /// The texture in the slot in use.
    pub fn get_current_texture(&self) -> (texture: Option<Texture>)
        ensures
            texture == self@.current_texture(),
    {
        if self.current_index < self.textures.len() {
            self.textures[self.current_index]
        } else {
            None
        }
    }

    /// Moves the cursor to the next slot of the ring and returns it.
    pub fn next(&mut self) -> (index: usize)
        requires
            old(self)@.wf(),
            old(self)@.pool_size > 0,
        ensures
            final(self)@ == old(self)@.advanced(),
            index == final(self)@.cursor,
            index == (old(self)@.cursor + 1) % (old(self)@.pool_size as int),
            final(self)@.wf(),
    {
        self.current_index = (self.current_index + 1) % self.pool_size;
        self.current_index
    }
}

/// What to do after a poll of the completion fence: sleep for `sleep_ms`
/// milliseconds, then either stop with the answer in `done` or poll again.
#[derive(Debug, Clone, Copy, PartialEq, Eq)]
pub struct QueryStep {
    pub sleep_ms: u64,
    pub done: Option<bool>,
}

/// A wait for the GPU to pass the completion fence. It counts the polls that
/// found the fence not yet passed.
#[derive(Debug, Clone, Copy, PartialEq, Eq, Structural)]
pub struct QueryWait {
    attempts: u32,
}

impl View for QueryWait {
    type V = u32;

    closed spec fn view(&self) -> u32 {
        self.attempts
    }
}

impl QueryWait {
    /// The count after one more poll. It stops counting once the wait is
    /// given up.
    pub open spec fn counted(attempts: u32, passed: bool) -> u32 {
        if passed || attempts > QUERY_MAX_POLLS {
            attempts
        } else {
            (attempts + 1) as u32
        }
    }

    /// The step after a poll that came back with `hr_ok` and `signalled`,
    /// `attempts` unsuccessful polls having gone before.
    ///
    /// A poll that finds the fence passed ends the wait with `true` at once.
    /// Any other poll is counted. From the 101st on, a sleep of one
    /// millisecond follows it; the 1001st ends the wait with what the fence
    /// last said.
    pub open spec fn step(attempts: u32, hr_ok: bool, signalled: bool) -> QueryStep {
        if hr_ok && signalled {
            QueryStep { sleep_ms: 0, done: Some(true) }
        } else {
            let counted = Self::counted(attempts, false);
            QueryStep {
                sleep_ms: if counted > QUERY_BUSY_POLLS {
                    1
                } else {
                    0
                },
                done: if counted > QUERY_MAX_POLLS {
                    Some(signalled)
                } else {
                    None
                },
            }
        }
    }

    /// Unsuccessful polls so far.
    pub fn attempts(&self) -> (n: u32)
        ensures
            n == self@,
    {
        self.attempts
    }

    /// Takes in one poll of the fence and says how to go on.
    pub fn after_poll(&mut self, hr_ok: bool, signalled: bool) -> (step: QueryStep)
        ensures
            step == Self::step(old(self)@, hr_ok, signalled),
            final(self)@ == Self::counted(old(self)@, hr_ok && signalled),
    {
        if hr_ok && signalled {
            return QueryStep { sleep_ms: 0, done: Some(true) };
        }
        if self.attempts <= QUERY_MAX_POLLS {
            self.attempts = self.attempts + 1;
        }
        let sleep_ms: u64 = if self.attempts > QUERY_BUSY_POLLS {
            1
        } else {
            0
        };
        let done = if self.attempts > QUERY_MAX_POLLS {
            Some(signalled)
        } else {
            None
        };
        QueryStep { sleep_ms, done }
    }
}

/// How a wait goes for a given run of poll answers: the polls made, the
/// milliseconds slept, and the answer if the wait ended within the run.
pub struct QueryRun {
    pub polls: nat,
    pub slept: nat,
    pub result: Option<bool>,
}

/// The wait that has counted `attempts` polls and meets `answers`, each a
/// pair of `hr_ok` and `signalled`.
pub open spec fn query_run(attempts: u32, answers: Seq<(bool, bool)>) -> QueryRun
    decreases answers.len(),
{
    if answers.len() == 0 {
        QueryRun { polls: 0, slept: 0, result: None }
    } else {
        let (hr_ok, signalled) = answers[0];
        let step = QueryWait::step(attempts, hr_ok, signalled);
        if step.done is Some {
            QueryRun { polls: 1, slept: step.sleep_ms as nat, result: step.done }
        } else {
            let rest = query_run(
                QueryWait::counted(attempts, hr_ok && signalled),
                answers.subrange(1, answers.len() as int),
            );
            QueryRun {
                polls: rest.polls + 1,
                slept: rest.slept + step.sleep_ms as nat,
                result: rest.result,
            }
        }
    }
}

/// The wait is bounded: whatever the fence answers, it ends within 1001
/// polls, and of these at most 901 are followed by a sleep of a millisecond.
pub proof fn lemma_query_bounded(attempts: u32, answers: Seq<(bool, bool)>)
    requires
        attempts <= QUERY_MAX_POLLS,
        answers.len() >= QUERY_MAX_POLLS + 1 - attempts,
    ensures
        query_run(attempts, answers).result is Some,
        query_run(attempts, answers).polls <= QUERY_MAX_POLLS + 1 - attempts,
        query_run(attempts, answers).slept <= QUERY_MAX_POLLS + 1 - QUERY_BUSY_POLLS,
        query_run(attempts, answers).slept <= QUERY_MAX_POLLS + 1 - attempts,
    decreases answers.len(),
{
    let (hr_ok, signalled) = answers[0];
    let step = QueryWait::step(attempts, hr_ok, signalled);
    if step.done is None {
        lemma_query_bounded((attempts + 1) as u32, answers.subrange(1, answers.len() as int));
    }
}

impl NativeDevice {
    /// Begins a wait for the completion fence.
    pub fn query(&self) -> (wait: QueryWait)
        ensures
            wait@ == 0,
    {
        QueryWait { attempts: 0 }
    }

    /// Plans one run of the video processor from an input texture to an
    /// output texture.
    ///
    /// The processor is kept from call to call. It is dropped, and the plan
    /// asks for a new one, when `content_desc` differs from the last one in
    /// frame format or in a dimension; the new description is remembered at
    /// once. The plan also asks for whatever a failed earlier build left
    /// missing.
    pub fn process(
        &mut self,
        width: u32,
        height: u32,
        content_desc: ContentDesc,
        color_space_in: i32,
        color_space_out: i32,
        array_slice: u32,
    ) -> (plan: ProcessPlan)
        ensures
            final(self)@ == (DeviceState {
                video: old(self)@.video.prepared_for(content_desc),
                ..old(self)@
            }),
            plan == process_plan(
                final(self)@.video,
                width,
                height,
                content_desc,
                color_space_in,
                color_space_out,
                array_slice,
            ),
    {
        self.video.prepare(content_desc);
        let rect = Rect { left: 0, top: 0, right: to_i32_bits(width), bottom: to_i32_bits(height) };
        ProcessPlan {
            create_enumerator: !self.video.enumerator,
            create_processor: !self.video.processor,
            content_desc,
            auto_processing: false,
            frame_format: D3D11_VIDEO_FRAME_FORMAT_PROGRESSIVE,
            color_space_in,
            color_space_out,
            source_rect: rect,
            dest_rect: rect,
            input_view: InputViewDesc {
                four_cc: 0,
                view_dimension: D3D11_VPIV_DIMENSION_TEXTURE2D,
                mip_slice: 0,
                array_slice,
            },
            output_view: OutputViewDesc {
                view_dimension: D3D11_VPOV_DIMENSION_TEXTURE2D,
                mip_slice: 0,
            },
            stream: StreamDesc {
                enable: true,
                output_index: 0,
                input_frame_or_field: 0,
                past_frames: 0,
                future_frames: 0,
            },
        }
    }

    /// Takes in how the platform fared with a `process` plan, and gives what
    /// the run returns: the first failure, as `DeviceCreationFailed`.
    ///
    /// Objects built before a failure stay cached. Nothing is rolled back.
    pub fn finish_process(&mut self, outcome: ProcessOutcome) -> (r: Result<(), WinPlatformError>)
        ensures
            r == outcome.result(),
            final(self)@ == (DeviceState { video: old(self)@.video.after(outcome), ..old(self)@ }),
    {
        self.video.record(outcome);
        match outcome {
            ProcessOutcome::Completed => Ok(()),
            ProcessOutcome::Failed { stage: _, hresult } => Err(
                WinPlatformError::DeviceCreationFailed(hresult),
            ),
        }
    }

    /// Plans the conversion of a BGRA texture to NV12 by the video processor.
    ///
    /// Either texture smaller than `width` by `height` is refused with
    /// `InvalidParameter`, the BGRA one first, and nothing changes. Otherwise
    /// this is `process` for a same-size conversion from array slice 0.
    pub fn bgra_to_nv12(
        &mut self,
        bgra_texture: &TextureDesc,
        nv12_texture: &TextureDesc,
        width: u32,
        height: u32,
        color_space_in: i32,
        color_space_out: i32,
    ) -> (r: Result<ProcessPlan, WinPlatformError>)
        ensures
            bgra_texture.width < width || bgra_texture.height < height ==> final(self)@ == old(
                self,
            )@ && r == Err::<ProcessPlan, WinPlatformError>(
                WinPlatformError::InvalidParameter(
                    ParameterFault::BgraTextureTooSmall {
                        texture_width: bgra_texture.width,
                        texture_height: bgra_texture.height,
                        width,
                        height,
                    },
                ),
            ),
            !(bgra_texture.width < width || bgra_texture.height < height) && (nv12_texture.width
                < width || nv12_texture.height < height) ==> final(self)@ == old(self)@ && r
                == Err::<ProcessPlan, WinPlatformError>(
                WinPlatformError::InvalidParameter(
                    ParameterFault::Nv12TextureTooSmall {
                        texture_width: nv12_texture.width,
                        texture_height: nv12_texture.height,
                        width,
                        height,
                    },
                ),
            ),
            bgra_texture.width >= width && bgra_texture.height >= height && nv12_texture.width
                >= width && nv12_texture.height >= height ==> {
                &&& final(self)@ == (DeviceState {
                    video: old(self)@.video.prepared_for(ContentDesc::conversion(width, height)),
                    ..old(self)@
                })
                &&& r == Ok::<ProcessPlan, WinPlatformError>(
                    process_plan(
                        final(self)@.video,
                        width,
                        height,
                        ContentDesc::conversion(width, height),
                        color_space_in,
                        color_space_out,
                        0,
                    ),
                )
            },
    {
        if bgra_texture.width < width || bgra_texture.height < height {
            return Err(
                WinPlatformError::InvalidParameter(
                    ParameterFault::BgraTextureTooSmall {
                        texture_width: bgra_texture.width,
                        texture_height: bgra_texture.height,
                        width,
                        height,
                    },
                ),
            );
        }
        if nv12_texture.width < width || nv12_texture.height < height {
            return Err(
                WinPlatformError::InvalidParameter(
                    ParameterFault::Nv12TextureTooSmall {
                        texture_width: nv12_texture.width,
                        texture_height: nv12_texture.height,
                        width,
                        height,
                    },
                ),
            );
        }
        let content_desc = ContentDesc::new_conversion(width, height);
        Ok(self.process(width, height, content_desc, color_space_in, color_space_out, 0))
    }

    /// Plans the conversion of one array slice of an NV12 texture to BGRA by
    /// the shader path. The size-dependent state is set up anew only when
    /// the size differs from the one it was last set up for.
    pub fn nv12_to_bgra(&self, width: u32, height: u32, nv12_array_index: u32) -> (plan: ConvertPlan)
        ensures
            plan == self@.shader.plan(width, height, nv12_array_index),
    {
        self.shader.make_plan(width, height, nv12_array_index)
    }

    /// Takes in how the platform fared with an `nv12_to_bgra` plan, and
    /// gives what the conversion returns: the first failure, as
    /// `DeviceCreationFailed`.
    ///
    /// The plan's size counts as set up unless the setup itself failed, so a
    /// failed setup is tried again by the next conversion of any size.
    pub fn finish_nv12_to_bgra(&mut self, plan: &ConvertPlan, outcome: ConvertOutcome) -> (r: Result<
        (),
        WinPlatformError,
    >)
        ensures
            r == (match outcome {
                ConvertOutcome::Completed => Ok::<(), WinPlatformError>(()),
                ConvertOutcome::Failed { hresult, .. } => Err::<(), WinPlatformError>(
                    WinPlatformError::DeviceCreationFailed(hresult),
                ),
            }),
            final(self)@ == (DeviceState {
                shader: old(self)@.shader.after(*plan, outcome),
                ..old(self)@
            }),
    {
        self.shader.record(plan, outcome);
        match outcome {
            ConvertOutcome::Completed => Ok(()),
            ConvertOutcome::Failed { stage: _, hresult } => Err(
                WinPlatformError::DeviceCreationFailed(hresult),
            ),
        }
    }
}

/// The decoder profile whose support tells whether the platform can decode
/// `format` at all; formats other than H.264 and H.265 have none.
pub open spec fn decoder_profile(format: DataFormat) -> Option<u128> {
    match format {
        DataFormat::H264 => Some(DECODER_PROFILE_H264_VLD_NOFGT),
        DataFormat::H265 => Some(DECODER_PROFILE_HEVC_VLD_MAIN),
        _ => None,
    }
}

/// The Intel generations that decode H.265 only in hybrid mode, told by the
/// second byte of the device id: Haswell, Broadwell, Cherry Trail and
/// Braswell.
pub open spec fn intel_hybrid_generation(device_id: u32) -> bool {
    let family = device_id & 0xFF00;
    family == 0x0400 || family == 0x0A00 || family == 0x0D00 || family == 0x1600 || family
        == 0x2200
}

/// The NVIDIA chips that decode H.265 only in hybrid mode, by device id
/// range: GK104, GK106, GK107, GK110, GK208, GM108, GM107, GM204 and GM200.
pub open spec fn nvidia_hybrid_chip(device_id: u32) -> bool {
    ||| 0x1180 <= device_id <= 0x11BF
    ||| 0x11C0 <= device_id <= 0x11FF
    ||| 0x0FC0 <= device_id <= 0x0FFF
    ||| 0x1000 <= device_id <= 0x103F
    ||| 0x1280 <= device_id <= 0x12BF
    ||| 0x1340 <= device_id <= 0x137F
    ||| 0x1380 <= device_id <= 0x13BF
    ||| 0x13C0 <= device_id <= 0x13FF
    ||| 0x1617 <= device_id <= 0x161A
    ||| device_id == 0x1667
    ||| 0x17C0 <= device_id <= 0x17FF
}

/// Whether a GPU decodes `format` only in hybrid mode, partly in software.
/// Only H.265 is ever decoded so, and only on the listed Intel and NVIDIA
/// hardware.
pub open spec fn hybrid_decoded(format: DataFormat, vendor_id: u32, device_id: u32) -> bool {
    format == DataFormat::H265 && (if vendor_id == 0x8086 {
        intel_hybrid_generation(device_id)
    } else if vendor_id == 0x10DE {
        nvidia_hybrid_chip(device_id)
    } else {
        false
    })
}

/// Whether decoding `format` on the adapter is of use: the platform reports
/// the profile as supported, and the hardware does not decode it in hybrid
/// mode.
pub open spec fn decode_supported(
    adapter: AdapterDesc,
    format: DataFormat,
    raw_supported: bool,
) -> bool {
    &&& decoder_profile(format) is Some
    &&& raw_supported
    &&& !hybrid_decoded(format, adapter.vendor_id, adapter.device_id)
}

impl NativeDevice {
    /// Computes `decoder_profile`: the profile to ask the platform about
    /// before `support_decode`.
    pub fn decoder_profile_of(format: DataFormat) -> (profile: Option<u128>)
        ensures
            profile == decoder_profile(format),
    {
        match format {
            DataFormat::H264 => Some(DECODER_PROFILE_H264_VLD_NOFGT),
            DataFormat::H265 => Some(DECODER_PROFILE_HEVC_VLD_MAIN),
            _ => None,
        }
    }

    /// Decides whether the device is to be used for decoding `format`, given
    /// what the platform said of the format's decoder profile with NV12
    /// output.
    pub fn support_decode(&self, format: DataFormat, raw_supported: bool) -> (supported: bool)
        ensures
            supported == decode_supported(self@.adapter, format, raw_supported),
    {
        match format {
            DataFormat::H264 | DataFormat::H265 => {},
            _ => {
                return false;
            },
        }
        if !raw_supported {
            return false;
        }
        !Self::is_format_hybrid_decoded_by_hardware(
            format,
            self.adapter.vendor_id,
            self.adapter.device_id,
        )
    }

    /// Decides `hybrid_decoded`.
    pub fn is_format_hybrid_decoded_by_hardware(
        format: DataFormat,
        vendor_id: u32,
        device_id: u32,
    ) -> (hybrid: bool)
        ensures
            hybrid == hybrid_decoded(format, vendor_id, device_id),
    {
        if vendor_id == AdapterVendor::ADAPTER_VENDOR_INTEL.to_u32() {
            let family: u32 = device_id & 0xFF00;
            if family == 0x0400 || family == 0x0A00 || family == 0x0D00 || family == 0x1600
                || family == 0x2200 {
                return format == DataFormat::H265;
            }
        } else if vendor_id == AdapterVendor::ADAPTER_VENDOR_NVIDIA.to_u32() {
            if (device_id >= 0x1180 && device_id <= 0x11BF) || (device_id >= 0x11C0 && device_id
                <= 0x11FF) || (device_id >= 0x0FC0 && device_id <= 0x0FFF) || (device_id >= 0x1000
                && device_id <= 0x103F) || (device_id >= 0x1280 && device_id <= 0x12BF) || (
            device_id >= 0x1340 && device_id <= 0x137F) || (device_id >= 0x1380 && device_id
                <= 0x13BF) || (device_id >= 0x13C0 && device_id <= 0x13FF) || (device_id >= 0x1617
                && device_id <= 0x161A) || (device_id == 0x1667) || (device_id >= 0x17C0
                && device_id <= 0x17FF) {
                return format == DataFormat::H265;
            }
        }
        false
    }
}

/// On hardware that decodes H.265 only in hybrid mode, H.265 is never
/// reported as supported, whatever the platform says; H.264 on the same
/// hardware is supported exactly when the platform says so.
pub proof fn lemma_hybrid_decode_excluded(adapter: AdapterDesc, raw_supported: bool)
    requires
        hybrid_decoded(DataFormat::H265, adapter.vendor_id, adapter.device_id),
    ensures
        !decode_supported(adapter, DataFormat::H265, raw_supported),
        decode_supported(adapter, DataFormat::H264, raw_supported) == raw_supported,
{
}

/// Every NVIDIA device id from 0x1180 to 0x11BF, the GK104 range, is
/// decoded in hybrid mode for H.265 and for no other format.
pub proof fn lemma_gk104_is_hybrid(device_id: u32, format: DataFormat)
    requires
        0x1180 <= device_id <= 0x11BF,
    ensures
        hybrid_decoded(format, 0x10DE, device_id) == (format == DataFormat::H265),
{
}

/// After `count` calls of `next` the cursor is `count` slots on around the
/// ring, and nothing else has changed: each slot still holds the texture it
/// held.
pub proof fn lemma_next_advances(state: DeviceState, count: nat)
    requires
        state.wf(),
        state.pool_size > 0,
    ensures
        state.advanced_by(count) == (DeviceState {
            cursor: ((state.cursor + count) % (state.pool_size as int)) as usize,
            ..state
        }),
        state.advanced_by(count).wf(),
    decreases count,
{
    let n = state.pool_size as int;
    if count == 0 {
        lemma_small_mod(state.cursor as nat, n as nat);
    } else {
        lemma_next_advances(state, (count - 1) as nat);
        lemma_add_mod_noop_right(1, state.cursor + count - 1, n);
        lemma_mod_bound(state.cursor + count, n);
    }
}

/// Round robin: a ring of N slots is gone through in order. Starting with
/// slot 0 in use, the slot in use after `count` calls of `next` is `count`
/// modulo N, so over N consecutive calls the slots in use are 0, 1, ..., N-1
/// and the N-th call is back at 0.
pub proof fn lemma_pool_round_robin(state: DeviceState, count: nat)
    requires
        state.wf(),
        state.pool_size > 0,
        state.cursor == 0,
    ensures
        state.advanced_by(count).cursor == count % (state.pool_size as nat),
        count < state.pool_size ==> state.advanced_by(count).cursor == count,
        state.advanced_by(state.pool_size as nat) == state,
        state.advanced_by(count).pool == state.pool,
{
    let n = state.pool_size as int;
    lemma_next_advances(state, count);
    lemma_next_advances(state, n as nat);
    lemma_mod_self_0(n);
    if count < n {
        lemma_small_mod(count, n as nat);
    }
}

/// From any slot, N consecutive calls of `next` use N different slots and
/// end on the slot they began on.
pub proof fn lemma_pool_cycle(state: DeviceState, i: nat, j: nat)
    requires
        state.wf(),
        state.pool_size > 0,
        i < j < state.pool_size,
    ensures
        state.advanced_by(i).cursor != state.advanced_by(j).cursor,
        state.advanced_by(state.pool_size as nat) == state,
{
    let n = state.pool_size as int;
    let c = state.cursor as int;
    lemma_next_advances(state, i);
    lemma_next_advances(state, j);
    lemma_next_advances(state, n as nat);
    lemma_mod_add_multiples_vanish(c, n);
    lemma_small_mod(c as nat, n as nat);
    if (c + i) % n == (c + j) % n {
        lemma_fundamental_div_mod(c + i, n);
        lemma_fundamental_div_mod(c + j, n);
        let qi = (c + i) / n;
        let qj = (c + j) / n;
        assert(j - i == n * qj - n * qi);
        assert(n * qj - n * qi == n * (qj - qi)) by (nonlinear_arith);
        assert(0 < n * (qj - qi) < n);
        assert(false) by (nonlinear_arith)
            requires
                0 < n * (qj - qi) < n,
                n > 0,
        ;
    }
}

/// What filling does to the pool: the textures created are appended in
/// order, each with the description asked for, and the rest of the state is
/// as before.
pub proof fn lemma_filled(state: DeviceState, desc: TextureDesc, handles: Seq<Handle>)
    ensures
        state.filled(desc, handles) == (DeviceState {
            pool: state.pool + Seq::new(
                handles.len(),
                |i: int| Some(Texture { handle: handles[i], desc }),
            ),
            ..state
        }),
    decreases handles.len(),
{
    let appended = Seq::new(handles.len(), |i: int| Some(Texture { handle: handles[i], desc }));
    if handles.len() == 0 {
        assert(state.pool + appended =~= state.pool);
    } else {
        let front = handles.drop_last();
        lemma_filled(state, desc, front);
        let before = Seq::new(front.len(), |i: int| Some(Texture { handle: front[i], desc }));
        assert((state.pool + before).push(Some(Texture { handle: handles.last(), desc }))
            =~= state.pool + appended);
    }
}

/// A pool that `ensure_texture` had allocated is uniform: it holds exactly
/// the textures created for it, one slot each in the order created, all of
/// the one description that was asked for.
pub proof fn lemma_allocated_pool_is_uniform(
    state: DeviceState,
    width: u32,
    height: u32,
    handles: Seq<Handle>,
)
    requires
        !state.pool_fits(width, height),
    ensures
        state.ensured(width, height).filled(TextureDesc::pooled(width, height), handles).pool
            == Seq::new(
            handles.len(),
            |i: int| Some(Texture { handle: handles[i], desc: TextureDesc::pooled(width, height) }),
        ),
        state.ensured(width, height).filled(TextureDesc::pooled(width, height), handles).cursor
            == state.cursor,
{
    let desc = TextureDesc::pooled(width, height);
    lemma_filled(state.ensured(width, height), desc, handles);
    assert(Seq::<Option<Texture>>::empty() + Seq::new(
        handles.len(),
        |i: int| Some(Texture { handle: handles[i], desc }),
    ) =~= Seq::new(handles.len(), |i: int| Some(Texture { handle: handles[i], desc })));
}

/// Resize invalidation. Take a pool of N > 0 textures that was made by
/// `ensure_texture(w1, h1)`: kept if it fitted, else discarded and filled
/// with N new textures. Then `ensure_texture(w2, h2)`
/// - with the same size keeps the pool, every slot with the very texture it
///   held, and asks for nothing;
/// - with another size discards every texture of the pool and asks for N
///   new ones of the new size, so that the pool, once filled, holds the N
///   textures created then and none of those it held.
pub proof fn lemma_resize_invalidation(
    state: DeviceState,
    w1: u32,
    h1: u32,
    handles: Seq<Handle>,
    w2: u32,
    h2: u32,
    fresh: Seq<Handle>,
)
    requires
        state.pool_size > 0,
        handles.len() == state.pool_size,
        fresh.len() == state.pool_size,
    ensures
        ({
            let pooled = if state.pool_fits(w1, h1) {
                state
            } else {
                state.ensured(w1, h1).filled(TextureDesc::pooled(w1, h1), handles)
            };
            &&& pooled.pool_fits(w1, h1)
            &&& (w2 == w1 && h2 == h1 ==> pooled.pool_request(w2, h2) == PoolRequest::Keep
                && pooled.ensured(w2, h2) == pooled)
            &&& (w2 != w1 || h2 != h1 ==> {
                &&& pooled.pool_request(w2, h2) == (PoolRequest::Allocate {
                    desc: TextureDesc::pooled(w2, h2),
                    count: state.pool_size,
                })
                &&& pooled.ensured(w2, h2).pool == Seq::<Option<Texture>>::empty()
                &&& pooled.ensured(w2, h2).filled(TextureDesc::pooled(w2, h2), fresh).pool
                    == Seq::new(
                    fresh.len(),
                    |i: int| Some(Texture { handle: fresh[i], desc: TextureDesc::pooled(w2, h2) }),
                )
            })
        }),
{
    if !state.pool_fits(w1, h1) {
        lemma_filled(state.ensured(w1, h1), TextureDesc::pooled(w1, h1), handles);
        assert(0x2u32 & 0x2u32 != 0) by (bit_vector);
    }
    let pooled = if state.pool_fits(w1, h1) {
        state
    } else {
        state.ensured(w1, h1).filled(TextureDesc::pooled(w1, h1), handles)
    };
    if w2 != w1 || h2 != h1 {
        lemma_allocated_pool_is_uniform(pooled, w2, h2, fresh);
    }
}

} // verus!
