//! Rendering a scene into a buffer of pixels.
//!
//! A pixel takes four bytes: red, green, blue and alpha. The pixels stand in the
//! buffer row by row. What a pixel looks like is up to the ray tracer, which is
//! handed in as a function from a position to a color.

use crate::message::JsPayload;
use crate::pool::{run_posted, Dispatch, Refused, WorkerId, WorkerPool};
use crate::shared_pool::submit_all;
use rayon::iter::{IndexedParallelIterator, ParallelIterator};
use rayon::slice::ParallelSliceMut;
use rayon::{ThreadBuilder, ThreadPool, ThreadPoolBuilder};
use vstd::prelude::*;

verus! {

/// A scene: what the ray tracer knows of it, and the size of its image.
#[derive(Debug)]
pub struct Scene<S> {
    pub inner: S,
    pub width: u32,
    pub height: u32,
}

/// How many bytes an image takes.
pub open spec fn buffer_len(width: u32, height: u32) -> nat {
    4 * (width as nat * height as nat)
}

/// The image has no more pixels than a `u32` can count, and its bytes fit into
/// one allocation.
pub open spec fn fits_in_memory(width: u32, height: u32) -> bool {
    &&& width * height <= u32::MAX
    &&& buffer_len(width, height) <= isize::MAX
}

/// The column of the pixel with number `i`.
pub open spec fn pixel_x(i: nat, width: u32) -> u32 {
    (i % width as nat) as u32
}

/// The row of the pixel with number `i`.
pub open spec fn pixel_y(i: nat, width: u32) -> u32 {
    (i / width as nat) as u32
}

/// The number of the pixel in column `x` and row `y`.
pub open spec fn pixel_number(x: u32, y: u32, width: u32) -> nat {
    y as nat * width as nat + x as nat
}

/// The bytes of the pixel with number `i`.
pub open spec fn pixel_bytes(data: Seq<u8>, i: int) -> Seq<u8> {
    data.subrange(4 * i, 4 * i + 4)
}

/// `color` is what `trace` gave for this position.
pub open spec fn traced<F: Fn(u32, u32) -> [u8; 4]>(
    trace: F,
    x: u32,
    y: u32,
    color: Seq<u8>,
) -> bool {
    exists|c: [u8; 4]| #[trigger] call_ensures(trace, (x, y), c) && color == c@
}

/// Where the pixel with number `i` lies: its column and its row.
pub fn pixel_position(i: usize, width: u32) -> (position: (u32, u32))
    requires
        width > 0,
        i <= u32::MAX,
    ensures
        position.0 == pixel_x(i as nat, width),
        position.1 == pixel_y(i as nat, width),
        position.0 as int == i as int % (width as int),
        position.1 as int == i as int / (width as int),
{
    let i: u32 = i as u32;
    (i % width, i / width)
}

/// Colors the pixel with number `i`, whose bytes are `chunk`.
fn write_pixel<F>(i: usize, width: u32, trace: &F, chunk: &mut [u8]) where
    F: Fn(u32, u32) -> [u8; 4],

    requires
        old(chunk)@.len() == 4,
        width > 0,
        i <= u32::MAX,
        call_requires(*trace, (pixel_x(i as nat, width), pixel_y(i as nat, width))),
    ensures
        traced(*trace, pixel_x(i as nat, width), pixel_y(i as nat, width), final(chunk)@),
{
    let (x, y) = pixel_position(i, width);
    let color = trace(x, y);
    chunk[0] = color[0];
    chunk[1] = color[1];
    chunk[2] = color[2];
    chunk[3] = color[3];
    assert(chunk@ =~= color@);
}

/// Hands the pixels out to the threads of the current thread pool, by `rayon`'s
/// `par_chunks_mut`, `enumerate` and `for_each`.
///
/// What is relied on: the slice is cut into consecutive chunks of four bytes,
/// chunk `i` is handed to `write_pixel` once, together with the number `i`, and
/// all calls have returned before `for_each` does. The contract then states of
/// every chunk what `write_pixel` ensures of one. Outside of a thread pool `rayon`
/// starts one of its own, which the machine has to allow.
#[verifier::external_body]
fn write_pixels_in_parallel<F>(data: &mut Vec<u8>, width: u32, trace: &F) where
    F: Fn(u32, u32) -> [u8; 4] + Sync,

    requires
        old(data)@.len() % 4 == 0,
        old(data)@.len() / 4 <= u32::MAX,
        old(data)@.len() > 0 ==> width > 0,
        forall|i: nat|
            i < old(data)@.len() / 4 ==> call_requires(
                *trace,
                (#[trigger] pixel_x(i, width), pixel_y(i, width)),
            ),
    ensures
        final(data)@.len() == old(data)@.len(),
        forall|i: nat|
            i < old(data)@.len() / 4 ==> traced(
                *trace,
                #[trigger] pixel_x(i, width),
                pixel_y(i, width),
                pixel_bytes(final(data)@, i as int),
            ),
{
    data.par_chunks_mut(4).enumerate().for_each(|(i, chunk)| write_pixel(i, width, trace, chunk));
}

/// A pool of threads.
#[verifier::external_type_specification]
#[verifier::external_body]
pub struct ExThreadPool(ThreadPool);

/// A thread of a pool that waits to be run somewhere.
#[verifier::external_type_specification]
#[verifier::external_body]
pub struct ExThreadBuilder(ThreadBuilder);

/// The most threads that one pool of threads has.
pub open spec fn most_threads() -> nat {
    if usize::BITS == 64 {
        0xffff
    } else {
        0xff
    }
}

/// How many workers a rendering takes from the pool: one for each thread, which
/// is up to `concurrency`, and fewer only where a pool of threads cannot have
/// that many.
pub open spec fn render_workers(concurrency: nat) -> nat
    recommends
        concurrency > 0,
{
    if concurrency <= most_threads() {
        concurrency
    } else {
        most_threads()
    }
}

/// `count` workers may be taken for this `concurrency`. Where it is zero, the
/// machine says how many threads there are.
pub open spec fn may_take(concurrency: usize, count: nat) -> bool {
    if concurrency > 0 {
        count == render_workers(concurrency as nat)
    } else {
        1 <= count <= most_threads()
    }
}

fn keep_thread(threads: &mut Vec<ThreadBuilder>, thread: ThreadBuilder)
    ensures
        final(threads)@ == old(threads)@.push(thread),
{
    threads.push(thread);
}

/// Makes a pool of threads by `rayon`'s `ThreadPoolBuilder`: `num_threads`,
/// `spawn_handler` and `build`.
///
/// What is relied on: `build` hands every thread of the pool to the handler once
/// and starts none itself. There are as many threads as asked for, but no more
/// than the word size of the machine allows; if zero are asked for, the
/// environment decides. `build` fails only if the handler does, which this one
/// does not.
#[verifier::external_body]
fn build_threads(concurrency: usize) -> (res: (ThreadPool, Vec<ThreadBuilder>))
    ensures
        may_take(concurrency, res.1@.len()),
{
    let mut threads = Vec::new();
    let thread_pool = ThreadPoolBuilder::new()
        .num_threads(concurrency)
        .spawn_handler(|thread| Ok(keep_thread(&mut threads, thread)))
        .build()
        .unwrap();
    (thread_pool, threads)
}

/// This pool of threads and these threads are what one call of `build_threads`
/// may give.
pub closed spec fn built_together(
    concurrency: usize,
    thread_pool: ThreadPool,
    threads: Vec<ThreadBuilder>,
) -> bool {
    call_ensures(build_threads, (concurrency,), (thread_pool, threads))
}

proof fn lemma_built_in_one_call(
    concurrency: usize,
    thread_pool: ThreadPool,
    threads: Vec<ThreadBuilder>,
)
    ensures
        built_together(concurrency, thread_pool, threads) <==> call_ensures(
            build_threads,
            (concurrency,),
            (thread_pool, threads),
        ),
{
}

/// Threads that were built together with a pool of threads are as many as the
/// `concurrency` asks for.
pub proof fn law_built_threads(
    concurrency: usize,
    thread_pool: ThreadPool,
    threads: Vec<ThreadBuilder>,
)
    requires
        built_together(concurrency, thread_pool, threads),
    ensures
        0 < concurrency <= 255 ==> threads@.len() == concurrency,
        concurrency > 255 ==> 255 <= threads@.len() <= concurrency,
        concurrency == 0 ==> threads@.len() >= 1,
{
    lemma_built_in_one_call(concurrency, thread_pool, threads);
}

/// A scene that is about to be rendered.
pub struct RenderJob<S, P> {
    pub scene: Scene<S>,
    /// The pixels.
    pub rgb_data: Vec<u8>,
    /// The pool of threads that the rendering is to be run in.
    pub thread_pool: ThreadPool,
    /// Its threads, each on its way to a worker.
    pub threads: Vec<Dispatch<ThreadBuilder, P>>,
}

impl<S> Scene<S> {
    /// Takes in a scene that was read from its description, or the text that
    /// says why it could not be read.
    pub fn new(parsed: Result<(S, u32, u32), String>) -> (res: Result<Scene<S>, String>)
        ensures
            match parsed {
                Ok((inner, width, height)) => res == Ok::<Scene<S>, String>(
                    Scene { inner, width, height },
                ),
                Err(text) => res == Err::<Scene<S>, String>(text),
            },
    {
        match parsed {
            Ok((inner, width, height)) => Ok(Scene { inner, width, height }),
            Err(text) => Err(text),
        }
    }

    /// Tells whether the image can be held in memory.
    pub fn fits(&self) -> (res: bool)
        ensures
            res == fits_in_memory(self.width, self.height),
    {
        proof {
            vstd::arithmetic::mul::lemma_mul_upper_bound(
                self.width as int,
                u32::MAX as int,
                self.height as int,
                u32::MAX as int,
            );
        }
        let pixels: u64 = self.width as u64 * self.height as u64;
        pixels <= u32::MAX as u64 && pixels * 4 <= isize::MAX as u64
    }

    /// Prepares the rendering of the scene: the pixels are allocated, all bytes
    /// being zero, and up to `concurrency` workers are taken from the pool, each
    /// to run a thread of the rendering. If the pool has too few workers, it
    /// stays as it is and there is no rendering.
    pub fn render<P>(self, concurrency: usize, slot: &mut Option<WorkerPool>) -> (res: Option<
        RenderJob<S, P>,
    >)
        requires
            fits_in_memory(self.width, self.height),
            *old(slot) is Some,
        ensures
            *final(slot) is Some,
            concurrency > 0 ==> (res is Some <==> render_workers(concurrency as nat) <= (*old(
                slot,
            ))->0@.len()),
            concurrency == 0 && res is None ==> (*old(slot))->0@.len() < most_threads(),
            res is None ==> *final(slot) == *old(slot),
            res is None ==> exists|thread_pool: ThreadPool, threads: Vec<ThreadBuilder>| #[trigger]
                built_together(concurrency, thread_pool, threads) && threads@.len() > (*old(
                    slot,
                ))->0@.len(),
            res matches Some(job) ==> {
                let idle = (*old(slot))->0@;
                let count = job.threads@.len();
                &&& job.wf()
                &&& job.scene == self
                &&& job.rgb_data@ == Seq::new(buffer_len(self.width, self.height), |i: int| 0u8)
                &&& job.rgb_data@.len() == 4 * (self.width * self.height)
                &&& may_take(concurrency, count)
                &&& count <= idle.len()
                &&& (*final(slot))->0@ == idle.take(idle.len() - count)
                &&& concurrency > 0 ==> (*final(slot))->0@.len() >= idle.len() - concurrency
                &&& forall|i: int|
                    #![trigger job.threads@[i]]
                    0 <= i < count ==> {
                        &&& job.threads@[i].worker == idle[idle.len() - 1 - i]
                        &&& job.threads@[i].js_payload == JsPayload::<P>::Undefined
                    }
                &&& exists|threads: Vec<ThreadBuilder>| #[trigger]
                    built_together(concurrency, job.thread_pool, threads) && threads@.len()
                        == count && (forall|i: int|
                        0 <= i < count ==> (#[trigger] job.threads@[i]).task == threads@[i])
            },
    {
        let pixels = (self.width * self.height) as usize;
        let rgb_data: Vec<u8> = vec![0; 4 * pixels];
        let (thread_pool, threads) = build_threads(concurrency);
        let ghost built = threads;
        assert(built_together(concurrency, thread_pool, built));
        match submit_all(slot, threads) {
            Some(threads) => {
                let job = RenderJob { scene: self, rgb_data, thread_pool, threads };
                assert(built_together(concurrency, job.thread_pool, built));
                assert(forall|i: int|
                    0 <= i < built@.len() ==> (#[trigger] job.threads@[i]).task == built@[i]);
                Some(job)
            },
            None => None,
        }
    }
}

impl<S, P> RenderJob<S, P> {
    /// There is room for every pixel and for nothing else, and there is a thread
    /// to render with.
    pub open spec fn wf(&self) -> bool {
        &&& self.threads@.len() > 0
        &&& fits_in_memory(self.scene.width, self.scene.height)
        &&& self.rgb_data@.len() == buffer_len(self.scene.width, self.scene.height)
    }

    /// Describes the image that will stand at address `base`.
    pub fn frame(&self, base: usize) -> (frame: Frame)
        ensures
            frame.base == base,
            frame.len == self.rgb_data@.len(),
            frame.width == self.scene.width,
            frame.height == self.scene.height,
            self.wf() ==> frame.len == buffer_len(frame.width, frame.height),
    {
        Frame {
            base,
            len: self.rgb_data.len(),
            width: self.scene.width,
            height: self.scene.height,
        }
    }
}

/// A rendering in parts, as they are sent off.
pub struct Rendering<S, P> {
    pub scene: Scene<S>,
    pub rgb_data: Vec<u8>,
    pub thread_pool: ThreadPool,
    /// The threads that only run. They are to be posted first, in this order.
    pub threads: Vec<Dispatch<ThreadBuilder, P>>,
    /// The thread whose worker starts the rendering. It is to be posted last.
    pub starter: Dispatch<ThreadBuilder, P>,
}

impl<S, P> RenderJob<S, P> {
    /// Picks the thread whose worker starts the rendering: the last one.
    pub fn split_starter(self) -> (rendering: Rendering<S, P>)
        requires
            self.wf(),
        ensures
            rendering.scene == self.scene,
            rendering.rgb_data == self.rgb_data,
            rendering.thread_pool == self.thread_pool,
            rendering.threads@ == self.threads@.drop_last(),
            rendering.starter == self.threads@.last(),
    {
        let RenderJob { scene, rgb_data, thread_pool, threads } = self;
        let mut threads = threads;
        let starter = threads.pop().unwrap();
        Rendering { scene, rgb_data, thread_pool, threads, starter }
    }
}

/// Renders an image: every pixel gets the color that `trace` gives for its
/// position.
pub fn render_pixels<F>(rgb_data: &mut Vec<u8>, width: u32, height: u32, trace: &F) where
    F: Fn(u32, u32) -> [u8; 4] + Sync,

    requires
        width * height <= u32::MAX,
        old(rgb_data)@.len() == buffer_len(width, height),
        forall|x: u32, y: u32|
            x < width && y < height ==> #[trigger] call_requires(*trace, (x, y)),
    ensures
        final(rgb_data)@.len() == buffer_len(width, height),
        forall|x: u32, y: u32|
            x < width && y < height ==> traced(
                *trace,
                x,
                y,
                pixel_bytes(final(rgb_data)@, #[trigger] pixel_number(x, y, width) as int),
            ),
        final(rgb_data)@.len() == 4 * (width * height),
        forall|x: u32, y: u32|
            x < width && y < height ==> #[trigger] pixel_number(x, y, width) == y * width + x
                && exists|c: [u8; 4]| #[trigger]
                call_ensures(*trace, (x, y), c) && final(rgb_data)@[4 * (y * width + x)] == c@[0]
                    && final(rgb_data)@[4 * (y * width + x) + 1] == c@[1]
                    && final(rgb_data)@[4 * (y * width + x) + 2] == c@[2]
                    && final(rgb_data)@[4 * (y * width + x) + 3] == c@[3],
{
    proof {
        if width == 0 {
            assert(width * height == 0) by (nonlinear_arith)
                requires
                    width == 0,
            ;
        }
        assert forall|i: nat| i < old(rgb_data)@.len() / 4 implies call_requires(
            *trace,
            (#[trigger] pixel_x(i, width), pixel_y(i, width)),
        ) by {
            law_pixel_position_in_image(i, width, height);
        }
    }
    write_pixels_in_parallel(rgb_data, width, trace);
    proof {
        assert forall|x: u32, y: u32| x < width && y < height implies traced(
            *trace,
            x,
            y,
            pixel_bytes(rgb_data@, #[trigger] pixel_number(x, y, width) as int),
        ) by {
            law_pixel_number_reads_back(x, y, width, height);
            assert(pixel_x(pixel_number(x, y, width), width) == x);
        }
        assert forall|x: u32, y: u32| x < width && y < height implies #[trigger] pixel_number(
            x,
            y,
            width,
        ) == y * width + x && exists|c: [u8; 4]| #[trigger]
            call_ensures(*trace, (x, y), c) && rgb_data@[4 * (y * width + x)] == c@[0]
                && rgb_data@[4 * (y * width + x) + 1] == c@[1] && rgb_data@[4 * (y * width + x) + 2]
                == c@[2] && rgb_data@[4 * (y * width + x) + 3] == c@[3] by {
            let i = pixel_number(x, y, width) as int;
            law_pixel_number_reads_back(x, y, width, height);
            law_pixels_stand_row_by_row(x, y, width);
            let color = pixel_bytes(rgb_data@, i);
            law_bytes_of_a_pixel(rgb_data@, i);
            assert(traced(*trace, x, y, color));
            law_traced_colors(*trace, x, y, color);
            let c = choose|c: [u8; 4]| #[trigger]
                call_ensures(*trace, (x, y), c) && color.len() == 4 && color[0] == c@[0]
                    && color[1] == c@[1] && color[2] == c@[2] && color[3] == c@[3];
            assert(color[0] == rgb_data@[4 * i + 0]);
            assert(color[1] == rgb_data@[4 * i + 1]);
            assert(color[2] == rgb_data@[4 * i + 2]);
            assert(color[3] == rgb_data@[4 * i + 3]);
            assert(call_ensures(*trace, (x, y), c));
        }
    }
}

/// Where an image lies in memory, and its size.
#[derive(Debug, Clone, Copy, PartialEq, Eq, Structural)]
pub struct Frame {
    pub base: usize,
    pub len: usize,
    pub width: u32,
    pub height: u32,
}

impl Frame {
    /// The memory holds an image of this size: it is not empty, it has the right
    /// number of bytes, and its end can be computed.
    pub open spec fn wf(&self) -> bool {
        &&& self.len > 0
        &&& self.len == buffer_len(self.width, self.height)
        &&& self.base + self.len <= usize::MAX
    }

    /// Tells whether an image can be made of the frame.
    pub fn is_valid(&self) -> (res: bool)
        ensures
            res == self.wf(),
    {
        proof {
            vstd::arithmetic::mul::lemma_mul_upper_bound(
                self.width as int,
                u32::MAX as int,
                self.height as int,
                u32::MAX as int,
            );
        }
        let pixels: u128 = self.width as u128 * self.height as u128;
        self.len > 0 && self.len as u128 == 4 * pixels && self.len <= usize::MAX - self.base
    }
}

/// A part of the shared memory that is to be copied and shown as an image.
#[derive(Debug, Clone, Copy, PartialEq, Eq, Structural)]
pub struct ImageRegion {
    /// The first byte.
    pub start: u32,
    /// The byte after the last one.
    pub end: u32,
    pub width: u32,
    pub height: u32,
}

impl ImageRegion {
    /// The region has four bytes for every pixel of the image, and the image has
    /// a pixel.
    pub open spec fn has_image_size(&self) -> bool {
        &&& self.end - self.start == buffer_len(self.width, self.height)
        &&& self.start < self.end
    }
}

/// Addresses are given to JavaScript as 32-bit numbers.
pub open spec fn address32(address: int) -> u32 {
    (address % 0x1_0000_0000) as u32
}

/// The part of the memory that a frame takes up.
pub open spec fn image_region(frame: Frame) -> ImageRegion {
    ImageRegion {
        start: address32(frame.base as int),
        end: address32(frame.base + frame.len),
        width: frame.width,
        height: frame.height,
    }
}

fn to_address32(address: usize) -> (res: u32)
    ensures
        res == address32(address as int),
{
    let wide: u64 = address as u64;
    assert(wide as u32 == wide % 0x1_0000_0000) by (bit_vector);
    wide as u32
}

/// Says which part of the memory holds the image.
pub fn image_data(frame: Frame) -> (region: ImageRegion)
    requires
        frame.wf(),
    ensures
        region == image_region(frame),
        frame.base + frame.len <= u32::MAX ==> region.has_image_size(),
{
    ImageRegion {
        start: to_address32(frame.base),
        end: to_address32(frame.base + frame.len),
        width: frame.width,
        height: frame.height,
    }
}

/// What is done once the work of one rendering thread has been posted to
/// `worker`: if it could not be posted, the work at `ptr` is to be dropped, which
/// is the result. The rendering goes on either way, with the threads that it has.
pub fn thread_posted<E>(worker: WorkerId, ptr: u32, posted: Result<(), E>) -> (dropped_ptr: Option<
    u32,
>)
    ensures
        dropped_ptr == (if posted is Ok {
            None
        } else {
            Some(ptr)
        }),
{
    match run_posted(worker, ptr, posted) {
        Ok(_) => None,
        Err(refused) => Some(refused.dropped_ptr),
    }
}

/// What is done once the rendering itself has been posted to `worker`: it goes
/// on in the given frame, or it has failed.
pub fn render_posted<E>(frame: Frame, worker: WorkerId, ptr: u32, posted: Result<(), E>) -> (res:
    Result<Frame, Refused<E>>)
    ensures
        posted is Ok ==> res == Ok::<Frame, Refused<E>>(frame),
        posted matches Err(error) ==> res == Err::<Frame, Refused<E>>(
            Refused { dropped_ptr: ptr, error },
        ),
{
    match run_posted(worker, ptr, posted) {
        Ok(_) => Ok(frame),
        Err(refused) => Err(refused),
    }
}

/// What the promise of a rendering comes to: the image, once the pixels have
/// been received, or `undefined` as the reason why there is none.
pub fn render_done<C>(frame: Frame, received: Result<(), C>) -> (res: Result<
    ImageRegion,
    JsPayload<()>,
>)
    requires
        received is Ok ==> frame.wf(),
    ensures
        received is Ok ==> res == Ok::<ImageRegion, JsPayload<()>>(image_region(frame)),
        received is Ok && frame.base + frame.len <= u32::MAX ==> image_region(
            frame,
        ).has_image_size(),
        received is Err ==> res == Err::<ImageRegion, JsPayload<()>>(JsPayload::Undefined),
{
    match received {
        Ok(_) => Ok(image_data(frame)),
        Err(_) => Err(JsPayload::Undefined),
    }
}

/// A scene that is being rendered, and the promise of its image.
#[derive(Debug)]
pub struct RenderingScene<T> {
    pub frame: Frame,
    pub promise: T,
}

impl<T> RenderingScene<T> {
    /// Returns the promise that resolves when the rendering is complete.
    pub fn promise(&self) -> (promise: T) where T: Clone
        ensures
            cloned(self.promise, promise),
    {
        self.promise.clone()
    }

    /// Says which part of the memory holds the image as far as it is rendered.
    pub fn image_so_far(&self) -> (region: ImageRegion)
        requires
            self.frame.wf(),
        ensures
            region == image_region(self.frame),
            self.frame.base + self.frame.len <= u32::MAX ==> region.has_image_size(),
    {
        image_data(self.frame)
    }
}

/// Every pixel of the buffer lies in the image, at a position that leads back to
/// its number.
pub proof fn law_pixel_position_in_image(i: nat, width: u32, height: u32)
    requires
        i < width as nat * height as nat,
    ensures
        width > 0,
        pixel_x(i, width) < width,
        pixel_y(i, width) < height,
        pixel_number(pixel_x(i, width), pixel_y(i, width), width) == i,
{
    let w = width as int;
    let h = height as int;
    assert(w > 0) by (nonlinear_arith)
        requires
            0 <= w,
            0 <= i < w * h,
    ;
    vstd::arithmetic::div_mod::lemma_fundamental_div_mod(i as int, w);
    vstd::arithmetic::div_mod::lemma_mod_bound(i as int, w);
    let q = i as int / w;
    let r = i as int % w;
    assert(0 <= q < h && w * q == q * w) by (nonlinear_arith)
        requires
            w > 0,
            i == w * q + r,
            0 <= r < w,
            0 <= i < w * h,
    ;
}

/// Every position in the image has a number in the buffer, which leads back to
/// it. So rendering colors each pixel, and none twice.
pub proof fn law_pixel_number_reads_back(x: u32, y: u32, width: u32, height: u32)
    requires
        x < width,
        y < height,
    ensures
        pixel_number(x, y, width) < width as nat * height as nat,
        pixel_x(pixel_number(x, y, width), width) == x,
        pixel_y(pixel_number(x, y, width), width) == y,
{
    let i = pixel_number(x, y, width);
    let w = width as int;
    assert(y * w + x < w * height) by (nonlinear_arith)
        requires
            0 <= x < w,
            0 <= y < height,
            w == width,
    ;
    vstd::arithmetic::div_mod::lemma_fundamental_div_mod_converse(i as int, w, y as int, x as int);
}

/// The part of the memory that is shown starts where the frame does and has the
/// size of its image.
pub proof fn law_image_region_has_the_right_size(frame: Frame)
    requires
        frame.wf(),
        frame.base + frame.len <= u32::MAX,
    ensures
        image_region(frame).start == frame.base,
        image_region(frame).width == frame.width,
        image_region(frame).height == frame.height,
        image_region(frame).has_image_size(),
{
}

/// A rendering takes at least one worker and up to `concurrency` of them. They
/// are the last ones of the pool, each is taken once, and the rest of the pool is
/// left alone.
pub proof fn law_render_takes_workers(idle: Seq<WorkerId>, concurrency: nat)
    requires
        concurrency > 0,
        render_workers(concurrency) <= idle.len(),
        idle.no_duplicates(),
    ensures
        0 < render_workers(concurrency) <= concurrency,
        crate::pool_laws::idle_after(idle, render_workers(concurrency)) == idle.take(
            idle.len() - render_workers(concurrency),
        ),
        crate::pool_laws::idle_after(idle, render_workers(concurrency)).len() >= idle.len()
            - concurrency,
        forall|i: nat, j: nat|
            i < j < render_workers(concurrency) ==> #[trigger] crate::pool_laws::idle_after(
                idle,
                i,
            ).last() != #[trigger] crate::pool_laws::idle_after(idle, j).last(),
{
    crate::pool_laws::law_submissions_take_distinct_workers(idle, render_workers(concurrency));
}

/// An image takes four bytes for every pixel, and nothing besides.
pub proof fn law_four_bytes_a_pixel(width: u32, height: u32)
    ensures
        buffer_len(width, height) == 4 * (width * height),
        width == 0 || height == 0 ==> buffer_len(width, height) == 0,
{
    assert(width == 0 || height == 0 ==> width * height == 0) by (nonlinear_arith);
}

/// An image fits exactly if its pixels can be counted with 32 bits and its bytes
/// can stand in one allocation.
pub proof fn law_images_that_fit(width: u32, height: u32)
    ensures
        fits_in_memory(width, height) <==> width * height <= u32::MAX && 4 * (width * height)
            <= isize::MAX,
{
}

/// Pixels stand row by row from left to right: the first of a row comes after the
/// last of the row above it, and each next one lies one column further right.
pub proof fn law_pixels_stand_row_by_row(x: u32, y: u32, width: u32)
    requires
        x < width,
    ensures
        pixel_number(x, y, width) == y * width + x,
        pixel_number(0, 0, width) == 0,
        x + 1 < width ==> pixel_number((x + 1) as u32, y, width) == pixel_number(x, y, width) + 1,
        x + 1 == width && y < u32::MAX ==> pixel_number(0, (y + 1) as u32, width) == pixel_number(
            x,
            y,
            width,
        ) + 1,
{
    assert(0 * width == 0);
    assert((y + 1) * width == y * width + width) by (nonlinear_arith);
}

/// The column of a pixel is the remainder of its number by the width, and its row
/// the quotient.
pub proof fn law_pixel_columns_and_rows(i: nat, width: u32)
    requires
        width > 0,
        i <= u32::MAX,
    ensures
        pixel_x(i, width) == i % (width as nat),
        pixel_y(i, width) == i / (width as nat),
{
    let w = width as int;
    vstd::arithmetic::div_mod::lemma_mod_bound(i as int, w);
    vstd::arithmetic::div_mod::lemma_div_is_ordered_by_denominator(i as int, 1, w);
    vstd::arithmetic::div_mod::lemma_div_pos_is_pos(i as int, w);
}

/// The bytes of a pixel are the four that start at four times its number.
pub proof fn law_bytes_of_a_pixel(data: Seq<u8>, i: int)
    requires
        0 <= i,
        4 * i + 4 <= data.len(),
    ensures
        pixel_bytes(data, i).len() == 4,
        forall|k: int| 0 <= k < 4 ==> #[trigger] pixel_bytes(data, i)[k] == data[4 * i + k],
{
}

/// A color is traced exactly if the tracer gave its four bytes, in this order.
pub proof fn law_traced_colors<F: Fn(u32, u32) -> [u8; 4]>(
    trace: F,
    x: u32,
    y: u32,
    color: Seq<u8>,
)
    ensures
        traced(trace, x, y, color) <==> exists|c: [u8; 4]| #[trigger]
            call_ensures(trace, (x, y), c) && color.len() == 4 && color[0] == c@[0] && color[1]
                == c@[1] && color[2] == c@[2] && color[3] == c@[3],
{
    if exists|c: [u8; 4]| #[trigger]
        call_ensures(trace, (x, y), c) && color.len() == 4 && color[0] == c@[0] && color[1]
            == c@[1] && color[2] == c@[2] && color[3] == c@[3] {
        let c = choose|c: [u8; 4]| #[trigger]
            call_ensures(trace, (x, y), c) && color.len() == 4 && color[0] == c@[0] && color[1]
                == c@[1] && color[2] == c@[2] && color[3] == c@[3];
        assert(color =~= c@);
    }
}

/// A rendering takes as many workers as asked for, as far as a pool of threads
/// can have that many: 65535 where a word has 64 bits, and 255 otherwise.
pub proof fn law_workers_of_a_rendering(concurrency: usize, count: nat)
    ensures
        most_threads() == if usize::BITS == 64 {
            65535nat
        } else {
            255nat
        },
        concurrency > 0 && concurrency <= 255 ==> (may_take(concurrency, count) <==> count
            == concurrency),
        concurrency > 0 && usize::BITS == 64 && concurrency <= 65535 ==> (may_take(
            concurrency,
            count,
        ) <==> count == concurrency),
        concurrency > 0 && usize::BITS == 64 && concurrency > 65535 ==> (may_take(
            concurrency,
            count,
        ) <==> count == 65535),
        concurrency > 0 && usize::BITS != 64 && concurrency > 255 ==> (may_take(concurrency, count)
            <==> count == 255),
        concurrency > 0 ==> (may_take(concurrency, count) <==> count == render_workers(
            concurrency as nat,
        )),
        concurrency == 0 && may_take(concurrency, count) ==> 1 <= count <= 65535,
{
}

/// A frame holds an image exactly if it is not empty, has four bytes for every
/// pixel, and ends inside of what can be addressed.
pub proof fn law_frames_with_an_image(frame: Frame)
    ensures
        frame.wf() <==> frame.len > 0 && frame.len == 4 * (frame.width * frame.height) && frame.base
            + frame.len <= usize::MAX,
{
}

/// The region of a frame starts where the frame does and ends where it does, by
/// the 32 bits of an address, and has the frame's width and height.
pub proof fn law_region_of_a_frame(frame: Frame)
    ensures
        image_region(frame).start == frame.base as int % 0x1_0000_0000,
        image_region(frame).end == (frame.base + frame.len) % 0x1_0000_0000,
        image_region(frame).width == frame.width,
        image_region(frame).height == frame.height,
        frame.base + frame.len <= u32::MAX ==> image_region(frame).start == frame.base
            && image_region(frame).end == frame.base + frame.len,
{
}

/// A region has the size of its image exactly if it has four bytes for every
/// pixel, and a pixel.
pub proof fn law_regions_of_image_size(region: ImageRegion)
    ensures
        region.has_image_size() <==> region.start < region.end && region.end - region.start == 4 * (
        region.width * region.height),
{
}

/// A rendering that is prepared has a thread, and its buffer has four bytes for
/// every pixel.
pub proof fn law_prepared_renderings<S, P>(job: RenderJob<S, P>)
    requires
        job.wf(),
    ensures
        job.threads@.len() > 0,
        job.rgb_data@.len() == 4 * (job.scene.width * job.scene.height),
        job.scene.width * job.scene.height <= u32::MAX,
{
}

} // verus!
