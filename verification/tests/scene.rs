use wasm_mt_hotswap_example::message::JsPayload;
use wasm_mt_hotswap_example::pool::{Refused, SetupStep, WorkerPool};
use wasm_mt_hotswap_example::scene::{
    image_data, pixel_position, render_done, render_pixels, render_posted, thread_posted, Frame,
    ImageRegion, RenderJob, RenderingScene, Scene,
};

fn scene(width: u32, height: u32) -> Scene<&'static str> {
    Scene::new(Ok(("spheres", width, height))).unwrap()
}

fn pool_of(initial: usize) -> Option<WorkerPool> {
    let mut spawned = 0;
    let mut step: SetupStep<()> = WorkerPool::new(initial);
    loop {
        match step {
            SetupStep::Ready(pool) => return Some(pool),
            SetupStep::Failed(()) => panic!("no worker failed"),
            SetupStep::Spawn(setup) => {
                step = setup.spawned(Ok(spawned));
                spawned += 1;
            }
        }
    }
}

fn job(width: u32, height: u32) -> RenderJob<&'static str, i32> {
    match scene(width, height).render(1, &mut pool_of(1)) {
        Some(job) => job,
        None => panic!("the pool has a worker"),
    }
}

#[test]
fn scene_from_its_description() {
    let scene = scene(3, 2);
    assert_eq!((scene.inner, scene.width, scene.height), ("spheres", 3, 2));
    let failed: Result<Scene<()>, String> = Scene::new(Err("missing field `fov`".to_string()));
    assert_eq!(failed.err(), Some("missing field `fov`".to_string()));
}

#[test]
fn image_must_fit_in_memory() {
    assert!(scene(1920, 1080).fits());
    assert!(scene(0, u32::MAX).fits());
    assert!(!scene(65536, 65536).fits());
    assert!(!scene(u32::MAX, u32::MAX).fits());
}

#[test]
fn rendering_starts_with_an_empty_image() {
    let started = job(3, 2);
    assert_eq!(started.rgb_data, vec![0; 24]);
    let frame = started.frame(1024);
    assert_eq!(frame, Frame { base: 1024, len: 24, width: 3, height: 2 });
    assert!(frame.is_valid());
    assert!(job(0, 2).rgb_data.is_empty());
}

#[test]
fn rendering_takes_up_to_concurrency_workers() {
    for concurrency in 1..6usize {
        let mut slot = pool_of(6);
        let job: RenderJob<_, i32> = scene(3, 2).render(concurrency, &mut slot).unwrap();
        assert_eq!(job.threads.len(), concurrency);
        assert_eq!(job.thread_pool.current_num_threads(), concurrency);
        for (i, thread) in job.threads.iter().enumerate() {
            assert_eq!(thread.worker, 5 - i);
            assert_eq!(thread.js_payload, JsPayload::Undefined);
            assert_eq!(thread.task.index(), i);
        }
        let pool = slot.unwrap();
        assert_eq!(pool.get_worker_count(), 6 - concurrency);
        for worker in 0..6 {
            assert_eq!(pool.is_idle(worker), worker < 6 - concurrency);
        }
    }
}

#[test]
fn rendering_takes_all_workers_or_none() {
    let mut slot = pool_of(2);
    assert!(scene(1, 1).render::<i32>(3, &mut slot).is_none());
    assert_eq!(slot.as_ref().unwrap().get_worker_count(), 2);
    assert!(scene(1, 1).render::<i32>(2, &mut slot).is_some());
    assert_eq!(slot.as_ref().unwrap().get_worker_count(), 0);
    assert!(scene(1, 1).render::<i32>(1, &mut slot).is_none());
    assert!(scene(1, 1).render::<i32>(0, &mut slot).is_none());
}

#[test]
fn machine_chooses_the_threads_when_none_are_asked_for() {
    let mut slot = pool_of(70000);
    let job: RenderJob<_, i32> = scene(1, 1).render(0, &mut slot).unwrap();
    assert!(!job.threads.is_empty());
    assert_eq!(slot.unwrap().get_worker_count(), 70000 - job.threads.len());
}

#[test]
fn frames_without_an_image() {
    let good = Frame { base: 16, len: 24, width: 3, height: 2 };
    assert!(good.is_valid());
    assert!(!Frame { len: 0, ..good }.is_valid());
    assert!(!Frame { len: 0, width: 0, ..good }.is_valid());
    assert!(!Frame { len: 20, ..good }.is_valid());
    assert!(!Frame { width: 4, ..good }.is_valid());
    assert!(!Frame { base: usize::MAX, ..good }.is_valid());
    assert!(!Frame { width: u32::MAX, height: u32::MAX, ..good }.is_valid());
}

#[test]
fn pixels_stand_row_by_row() {
    assert_eq!(pixel_position(0, 3), (0, 0));
    assert_eq!(pixel_position(2, 3), (2, 0));
    assert_eq!(pixel_position(3, 3), (0, 1));
    assert_eq!(pixel_position(5, 3), (2, 1));
    for i in 0..35usize {
        let (x, y) = pixel_position(i, 7);
        assert!(x < 7 && y < 5);
        assert_eq!(y as usize * 7 + x as usize, i);
    }
}

#[test]
fn every_pixel_is_colored() {
    let mut job = job(5, 3);
    render_pixels(&mut job.rgb_data, 5, 3, &|x: u32, y: u32| [x as u8, y as u8, 7, 255]);
    for y in 0..3usize {
        for x in 0..5usize {
            let at = 4 * (y * 5 + x);
            assert_eq!(&job.rgb_data[at..at + 4], &[x as u8, y as u8, 7, 255]);
        }
    }
}

#[test]
fn large_image_is_colored() {
    let mut job = job(640, 480);
    render_pixels(&mut job.rgb_data, 640, 480, &|x: u32, y: u32| {
        [(x % 256) as u8, (x / 256) as u8, (y % 256) as u8, (y / 256) as u8]
    });
    let at = 4 * (479 * 640 + 639);
    assert_eq!(&job.rgb_data[at..], &[127, 2, 223, 1]);
    assert_eq!(job.rgb_data.len(), 4 * 640 * 480);
}

#[test]
fn empty_image_has_no_pixels() {
    let mut data: Vec<u8> = Vec::new();
    render_pixels(&mut data, 0, 9, &|_x: u32, _y: u32| [1, 2, 3, 4]);
    assert!(data.is_empty());
}

#[test]
fn image_lies_where_the_buffer_is() {
    let frame = Frame { base: 4096, len: 24, width: 3, height: 2 };
    let region = ImageRegion { start: 4096, end: 4120, width: 3, height: 2 };
    assert_eq!(image_data(frame), region);
    assert_eq!(region.end - region.start, 4 * region.width * region.height);
}

#[test]
fn promise_comes_to_the_image() {
    let frame = Frame { base: 16, len: 4, width: 1, height: 1 };
    let region = ImageRegion { start: 16, end: 20, width: 1, height: 1 };
    assert_eq!(render_done::<String>(frame, Ok(())), Ok(region));
    assert_eq!(render_done(frame, Err("canceled")), Err(JsPayload::Undefined));
    let empty = Frame { base: 16, len: 0, width: 0, height: 1 };
    assert_eq!(render_done(empty, Err("canceled")), Err(JsPayload::Undefined));
}

#[test]
fn rendering_scene_shows_progress() {
    let rendering = RenderingScene {
        frame: Frame { base: 32, len: 8, width: 2, height: 1 },
        promise: "promise".to_string(),
    };
    assert_eq!(rendering.promise(), "promise");
    assert_eq!(
        rendering.image_so_far(),
        ImageRegion { start: 32, end: 40, width: 2, height: 1 }
    );
}

#[test]
fn refused_thread_does_not_stop_the_rendering() {
    assert_eq!(thread_posted::<String>(3, 64, Ok(())), None);
    assert_eq!(thread_posted(3, 64, Err("closed")), Some(64));
}

#[test]
fn refused_rendering_fails() {
    let frame = Frame { base: 16, len: 4, width: 1, height: 1 };
    assert_eq!(render_posted::<String>(frame, 3, 64, Ok(())), Ok(frame));
    assert_eq!(
        render_posted(frame, 3, 64, Err("closed")),
        Err(Refused { dropped_ptr: 64, error: "closed" })
    );
}

#[test]
fn last_thread_starts_the_rendering() {
    let mut slot = pool_of(4);
    let job: RenderJob<_, i32> = scene(2, 2).render(3, &mut slot).unwrap();
    let rendering = job.split_starter();
    assert_eq!(rendering.starter.worker, 1);
    assert_eq!(rendering.starter.task.index(), 2);
    let others: Vec<_> = rendering.threads.iter().map(|t| (t.worker, t.task.index())).collect();
    assert_eq!(others, vec![(3, 0), (2, 1)]);
    assert_eq!(rendering.thread_pool.current_num_threads(), 3);
    assert_eq!(rendering.rgb_data, vec![0; 16]);
    assert_eq!(rendering.scene.inner, "spheres");
}
