use vkrender::recorder::{write_cmds, Command, FrameTable, IndexType};
use vkrender::render::{framebuffers, plan_render, FramebufferCfg};
use vkrender::scene::{Scene, SceneItem};
use vkrender::swapchain::{Extent2D, PresentMode, SwapchainCfg};

fn swp() -> SwapchainCfg {
    SwapchainCfg {
        num_of_images: 3,
        format: 44,
        color_space: 0,
        present_mode: PresentMode::Fifo,
        usage: 0x10,
        extent: Extent2D { width: 640, height: 480 },
        transform: 1,
        alpha: 1,
    }
}

fn item(n: u64) -> SceneItem {
    SceneItem { vertex_buffer: n, index_buffer: n + 100, index_count: 12, uniform_buffer: n + 200 }
}

#[test]
fn one_framebuffer_per_image() {
    let plan = plan_render(&swp(), 3);
    assert_eq!(plan.frame_count(), 3);
    assert_eq!(plan.image_count, 3);
    let e = Extent2D { width: 640, height: 480 };
    assert_eq!(
        plan.frames,
        vec![
            FramebufferCfg { image_index: 0, view_index: 0, extent: e },
            FramebufferCfg { image_index: 1, view_index: 0, extent: e },
            FramebufferCfg { image_index: 2, view_index: 0, extent: e },
        ]
    );
    assert!(framebuffers(0, e).is_empty());
}

#[test]
fn recording_gives_n_buffers_per_framebuffer() {
    let plan = plan_render(&swp(), 3);
    let scene = Scene::from_items(vec![item(1), item(2)]);
    let rec = write_cmds(&plan, &scene);
    assert_eq!(rec.len(), 3);
    let mut total = 0;
    for group in &rec {
        assert_eq!(group.len(), 2);
        total += group.len();
        for buf in group {
            let begins = buf.iter().filter(|c| matches!(c, Command::BeginRenderPass { .. })).count();
            let ends = buf.iter().filter(|c| matches!(c, Command::EndRenderPass)).count();
            assert_eq!(begins, 1);
            assert_eq!(ends, 1);
        }
    }
    assert_eq!(total, 6);
}

#[test]
fn recorded_commands_for_one_item() {
    let plan = plan_render(&swp(), 2);
    let scene = Scene::from_items(vec![item(1), item(2)]);
    let rec = write_cmds(&plan, &scene);
    assert_eq!(
        rec[1][0],
        vec![
            Command::BeginRenderPass { framebuffer: 1 },
            Command::BindGraphicsPipeline,
            Command::BindVertexBuffer { buffer: 1, offset: 0 },
            Command::BindIndexBuffer { buffer: 101, offset: 0, index_type: IndexType::Uint32 },
            Command::BindResources { uniform_buffer: 201 },
            Command::DrawIndexed {
                index_count: 12,
                instance_count: 1,
                first_index: 0,
                vertex_offset: 0,
                first_instance: 0,
            },
            Command::EndRenderPass,
        ]
    );
    assert_eq!(rec[0][1][2], Command::BindVertexBuffer { buffer: 2, offset: 0 });
}

#[test]
fn empty_scene_records_nothing() {
    let plan = plan_render(&swp(), 3);
    let rec = write_cmds(&plan, &Scene::new());
    assert_eq!(rec.len(), 3);
    assert!(rec.iter().all(|g| g.is_empty()));
    assert_eq!(rec.iter().map(|g| g.len()).sum::<usize>(), 0);
}

#[test]
fn no_framebuffers_records_nothing() {
    let plan = plan_render(&swp(), 0);
    let scene = Scene::from_items(vec![item(1)]);
    assert!(write_cmds(&plan, &scene).is_empty());
}

#[test]
fn frame_table_is_additive() {
    let mut t: FrameTable<u32> = FrameTable::new(2);
    assert_eq!(t.len(), 2);
    t.append(vec![vec![1, 2], vec![3, 4]]);
    t.append(vec![vec![5], vec![6]]);
    assert_eq!(t.len(), 6);
    assert_eq!(t.groups(), &vec![vec![], vec![], vec![1, 2], vec![3, 4], vec![5], vec![6]]);
}

#[test]
fn scene_keeps_insertion_order() {
    let mut s = Scene::new();
    assert_eq!(s.len(), 0);
    s.push(item(3));
    s.push(item(1));
    assert_eq!(s.len(), 2);
    assert_eq!(s.items(), &[item(3), item(1)]);
}
