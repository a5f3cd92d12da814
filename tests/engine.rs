use another_world::memory::{Buffer, Resource};
use another_world::video::{Page, Palette, Point, Polygon, Video, VideoError, PAGE_SIZE, SCREEN_W};
use another_world::vm::{
    frame_sleep_ms, VM_VARIABLE_RANDOM_SEED, FrameEvent, HostRequest, Thread, VirtualMachine, VmError, INACTIVE_THREAD, STACK_SIZE,
};

fn machine(code: &[u8]) -> VirtualMachine {
    let mut mem = code.to_vec();
    mem.resize(4096, 0);
    let res = Resource::new(mem, 0, 1024, 2048, 3072);
    let mut vm = VirtualMachine::new(res, Video::new());
    vm.init_for_part(0x3e81);
    vm
}

fn with_cursor(code: &[u8]) -> VirtualMachine {
    let mut vm = machine(code);
    vm.check_thread_requests();
    vm.frame_thread = 0;
    vm.in_slice = true;
    vm.script_ptr = 0;
    vm.stack_ptr = 0;
    vm
}

fn run_frame(vm: &mut VirtualMachine) -> FrameEvent {
    vm.host_frame(10_000).unwrap()
}

#[test]
fn jnz_jumps_twice_then_falls_through() {
    // v5 = 3; loop: jnz v5, loop(4); pause
    let code = [0x00, 5, 0x00, 0x03, 0x09, 5, 0x00, 0x04, 0x06];
    let mut vm = with_cursor(&code);
    vm.execute_instruction().unwrap();
    assert_eq!(vm.variables[5], 3);
    let mut jumps = 0;
    for _ in 0..3 {
        let before = vm.script_ptr;
        vm.execute_instruction().unwrap();
        if vm.script_ptr == before {
            jumps += 1;
        }
    }
    assert_eq!(jumps, 2);
    assert_eq!(vm.variables[5], 0);
    assert_eq!(vm.script_ptr, 8);
}

#[test]
fn jnz_wraps_below_zero() {
    let code = [0x09, 7, 0x00, 0x00];
    let mut vm = with_cursor(&code);
    vm.variables[7] = i16::MIN;
    vm.execute_instruction().unwrap();
    assert_eq!(vm.variables[7], i16::MAX);
    assert_eq!(vm.script_ptr, 0);
}

#[test]
fn cond_jmp_equal_taken_greater_not() {
    // v1 = 5; cond_jmp (byte operand, ==) v1, 5 -> 0x0100
    let code = [0x0a, 0x00, 1, 5, 0x01, 0x00];
    let mut vm = with_cursor(&code);
    vm.variables[1] = 5;
    vm.execute_instruction().unwrap();
    assert_eq!(vm.script_ptr, 0x100);

    let code = [0x0a, 0x02, 1, 5, 0x01, 0x00];
    let mut vm = with_cursor(&code);
    vm.variables[1] = 5;
    vm.execute_instruction().unwrap();
    assert_eq!(vm.script_ptr, 6);
}

#[test]
fn cond_jmp_operand_forms() {
    // variable operand, <=
    let code = [0x0a, 0x85, 1, 2, 0x00, 0x40];
    let mut vm = with_cursor(&code);
    vm.variables[1] = -3;
    vm.variables[2] = 4;
    vm.execute_instruction().unwrap();
    assert_eq!(vm.script_ptr, 0x40);
    // word operand, >= with a negative immediate
    let code = [0x0a, 0x43, 1, 0xff, 0xfe, 0x00, 0x40];
    let mut vm = with_cursor(&code);
    vm.variables[1] = -2;
    vm.execute_instruction().unwrap();
    assert_eq!(vm.script_ptr, 0x40);
    // invalid comparator is false
    let code = [0x0a, 0x07, 1, 0, 0x00, 0x40];
    let mut vm = with_cursor(&code);
    vm.execute_instruction().unwrap();
    assert_eq!(vm.script_ptr, 6);
}

#[test]
fn call_then_ret_resumes_after_call() {
    // 0: call 0x10 ; 3: pause ; 0x10: ret
    let mut code = vec![0u8; 0x20];
    code[0] = 0x04;
    code[1] = 0x00;
    code[2] = 0x10;
    code[3] = 0x06;
    code[0x10] = 0x05;
    let mut vm = with_cursor(&code);
    vm.execute_instruction().unwrap();
    assert_eq!(vm.script_ptr, 0x10);
    assert_eq!(vm.stack_ptr, 1);
    vm.execute_instruction().unwrap();
    assert_eq!(vm.script_ptr, 3);
    assert_eq!(vm.stack_ptr, 0);
}

#[test]
fn stack_overflow_and_underflow_are_fatal() {
    let code = [0x04, 0x00, 0x00];
    let mut vm = with_cursor(&code);
    for _ in 0..STACK_SIZE {
        vm.execute_instruction().unwrap();
    }
    assert_eq!(vm.execute_instruction(), Err(VmError::StackOverflow));

    let code = [0x05];
    let mut vm = with_cursor(&code);
    assert_eq!(vm.execute_instruction(), Err(VmError::StackUnderflow));
}

#[test]
fn pause_keeps_cursor_for_next_frame() {
    // v1 += 1; pause; v1 += 1; pause
    let code = [0x03, 1, 0, 1, 0x06, 0x03, 1, 0, 1, 0x06];
    let mut vm = machine(&code);
    vm.check_thread_requests();
    assert_eq!(run_frame(&mut vm), FrameEvent::Finished);
    assert_eq!(vm.threads[0].pc, 5);
    assert_eq!(vm.variables[1], 1);
    vm.check_thread_requests();
    assert_eq!(run_frame(&mut vm), FrameEvent::Finished);
    assert_eq!(vm.threads[0].pc, 10);
    assert_eq!(vm.variables[1], 2);
}

#[test]
fn set_vect_takes_effect_next_frame() {
    // thread 0: setvec 1 -> 0x20 ; pause ; kill
    // thread 1 at 0x20: v9 = 7 ; pause
    let mut code = vec![0u8; 0x40];
    code[..6].copy_from_slice(&[0x08, 1, 0x00, 0x20, 0x06, 0x11]);
    code[0x20..0x25].copy_from_slice(&[0x00, 9, 0x00, 0x07, 0x06]);
    let mut vm = machine(&code);
    vm.check_thread_requests();
    assert_eq!(run_frame(&mut vm), FrameEvent::Finished);
    assert_eq!(vm.threads[1].pc, INACTIVE_THREAD);
    assert_eq!(vm.threads[1].requested_pc_offset, Some(0x20));
    assert_eq!(vm.variables[9], 0);
    vm.check_thread_requests();
    assert_eq!(vm.threads[1].pc, 0x20);
    assert_eq!(run_frame(&mut vm), FrameEvent::Finished);
    assert_eq!(vm.variables[9], 7);
    assert_eq!(vm.threads[1].pc, 0x25);
}

#[test]
fn deactivation_sentinel_and_kill() {
    let code = [0x08, 0, 0xff, 0xfe, 0x11];
    let mut vm = machine(&code);
    vm.check_thread_requests();
    assert_eq!(run_frame(&mut vm), FrameEvent::Finished);
    assert_eq!(vm.threads[0].pc, INACTIVE_THREAD);
    vm.check_thread_requests();
    assert_eq!(vm.threads[0].pc, INACTIVE_THREAD);
    assert_eq!(vm.threads[0].requested_pc_offset, None);
}

#[test]
fn paused_thread_flag_skips_thread() {
    let code = [0x03, 1, 0, 1, 0x06];
    let mut vm = machine(&code);
    vm.threads[0].paused_requested = true;
    vm.check_thread_requests();
    assert_eq!(run_frame(&mut vm), FrameEvent::Finished);
    assert_eq!(vm.variables[1], 0);
    assert_eq!(vm.threads[0].pc, 0);
}

#[test]
fn thread_new_is_inactive() {
    let t = Thread::new();
    assert_eq!(t.pc, INACTIVE_THREAD);
    assert_eq!(t.requested_pc_offset, None);
    assert!(!t.paused_current && !t.paused_requested);
}

#[test]
fn new_machine_seeds_variables() {
    let vm = machine(&[]);
    assert_eq!(vm.variables[0x54], 0x81);
    assert_eq!(vm.variables[0xe4], 0x14);
    assert_eq!(vm.threads[0].pc, 0);
    for t in 1..64 {
        assert_eq!(vm.threads[t].pc, INACTIVE_THREAD);
    }
}

#[test]
fn unknown_opcode_is_fatal() {
    let code = [0x06, 0x02];
    let mut vm = with_cursor(&code);
    vm.script_ptr = 1;
    assert_eq!(vm.execute_instruction(), Err(VmError::UnknownOpcode { offset: 1, opcode: 0x02 }));
}

#[test]
fn script_past_arena_is_an_error() {
    let mut vm = with_cursor(&[]);
    vm.script_ptr = 4096;
    assert_eq!(vm.execute_instruction(), Err(VmError::ScriptOutOfRange { offset: 4096 }));
}

#[test]
fn mov_add_or_arithmetic() {
    let code = [0x00, 1, 0x7f, 0xff, 0x03, 1, 0x00, 0x01, 0x01, 2, 1, 0x15, 3, 0x00, 0x0f];
    let mut vm = with_cursor(&code);
    vm.variables[3] = 0x30;
    for _ in 0..4 {
        vm.execute_instruction().unwrap();
    }
    assert_eq!(vm.variables[1], i16::MIN);
    assert_eq!(vm.variables[2], i16::MIN);
    assert_eq!(vm.variables[3], 0x3f);
}

#[test]
fn update_memlist_requests() {
    let code = [0x19, 0x00, 0x00, 0x19, 0x00, 0x12, 0x19, 0x3e, 0x81];
    let mut vm = with_cursor(&code);
    assert_eq!(vm.execute_instruction(), Ok(Some(HostRequest::InvalidateResources)));
    assert_eq!(vm.execute_instruction(), Ok(Some(HostRequest::LoadEntry(0x12))));
    assert_eq!(vm.execute_instruction(), Ok(None));
    assert_eq!(vm.requested_next_part, Some(0x3e81));
    vm.variables[0xe4] = 0;
    assert_eq!(vm.check_thread_requests(), Some(0x3e81));
    assert_eq!(vm.variables[0xe4], 0x14);
    assert_eq!(vm.requested_next_part, None);
}

#[test]
fn blit_asks_for_present_mid_slice() {
    let code = [0x10, 0xfe, 0x00, 1, 0x00, 0x05, 0x06];
    let mut vm = machine(&code);
    vm.check_thread_requests();
    vm.variables[0xf7] = 9;
    assert_eq!(run_frame(&mut vm), FrameEvent::Request(HostRequest::Present(0xfe)));
    assert_eq!(vm.variables[0xf7], 0);
    assert_eq!(run_frame(&mut vm), FrameEvent::Finished);
    assert_eq!(vm.variables[1], 5);
}

#[test]
fn frame_pacing() {
    assert_eq!(frame_sleep_ms(1000, 990, 5), 90);
    assert_eq!(frame_sleep_ms(1000, 800, 5), 0);
    assert_eq!(frame_sleep_ms(500, 900, 2), 40);
    assert_eq!(frame_sleep_ms(10, 0, -1), 0);
}

#[test]
fn set_palette_marks_palette() {
    let mut code = vec![0x0b, 0x01, 0x00, 0x0b, 0x20, 0x00];
    code.resize(3072 + 64, 0);
    for i in 0..32 {
        code[3072 + 32 + i] = i as u8 + 1;
    }
    let mut vm = with_cursor(&code);
    vm.execute_instruction().unwrap();
    let pal = vm.video.palette_requested.clone().unwrap();
    assert_eq!(pal.data[0], 1);
    assert_eq!(pal.data[31], 32);
    assert_eq!(pal.entry(0), (17, 0, 2 * 17));
    vm.video.palette_requested = None;
    vm.execute_instruction().unwrap();
    assert!(vm.video.palette_requested.is_none());
}

#[test]
fn palette_entries_expand_nibbles() {
    let mut mem = vec![0u8; 32];
    mem[2] = 0x0f;
    mem[3] = 0x8c;
    let pal = Palette::from_bytes(&mem, 0);
    assert_eq!(pal.entry(1), (255, 136, 204));
}

#[test]
fn page_ids_resolve_through_aliases() {
    let mut v = Video::new();
    assert_eq!(v.get_page_id(0), 0);
    assert_eq!(v.get_page_id(3), 3);
    assert_eq!(v.get_page_id(0xfe), 2);
    assert_eq!(v.get_page_id(0xff), 1);
    assert_eq!(v.get_page_id(7), 0);
    v.cur_page_ptr2 = 3;
    v.cur_page_ptr3 = 0;
    assert_eq!(v.get_page_id(0xfe), 3);
    assert_eq!(v.get_page_id(0xff), 0);
    v.change_page_ptr1(0xfe);
    assert_eq!(v.cur_page_ptr1, 3);
}

#[test]
fn fill_page_packs_color() {
    let mut v = Video::new();
    v.fill_video_page(1, 6);
    assert!(v.pages[1].data.iter().all(|&b| b == 0x66));
    assert!(v.pages[0].data.iter().all(|&b| b == 0));
    assert_eq!(v.get_page(1).data.len(), PAGE_SIZE);
    v.fill_video_page(0xff, 0x0a);
    assert!(v.pages[1].data.iter().all(|&b| b == 0xaa));
}

#[test]
fn copy_page_with_scroll() {
    let mut v = Video::new();
    for y in 0..200 {
        for x in 0..320 {
            v.pages[0].data[y * SCREEN_W + x] = y as u8;
        }
    }
    v.fill_video_page(1, 1);
    v.copy_page(0, 1, 10);
    assert_eq!(v.pages[1].data[0], 0x11);
    assert_eq!(v.pages[1].data[9 * 320], 0x11);
    assert_eq!(v.pages[1].data[10 * 320 + 5], 0);
    assert_eq!(v.pages[1].data[199 * 320], 189);
    v.copy_page(0, 2, -5);
    assert_eq!(v.pages[2].data[0], 5);
    assert_eq!(v.pages[2].data[194 * 320], 199);
    assert_eq!(v.pages[2].data[195 * 320], 0);
}

fn rect_data(w: u8, h: u8) -> Vec<u8> {
    // bbw, bbh, 4 points: (w,0) (w,h) (0,h) (0,0)
    vec![w, h, 4, w, 0, w, h, 0, h, 0, 0]
}

fn count_color(page: &Page, c: u8) -> usize {
    page.data.iter().filter(|&&b| b == c).count()
}

#[test]
fn rectangle_fill_is_exact() {
    let mut mem = vec![0xc0 | 0x05];
    mem.extend(rect_data(10, 4));
    let res = Resource::new(mem, 0, 0, 0, 0);
    let mut v = Video::new();
    v.read_and_draw_polygon(&res, Buffer::with_offset(0, 0), 0xff, 64, Point { x: 100, y: 50 }).unwrap();
    let page = &v.pages[2];
    assert_eq!(count_color(page, 5), 11 * 5);
    for y in 48..=52 {
        for x in 95..=105 {
            assert_eq!(page.data[y * 320 + x], 5);
        }
    }
    assert_eq!(page.data[48 * 320 + 94], 0);
    assert_eq!(page.data[47 * 320 + 95], 0);
}

#[test]
fn rectangle_fill_is_clipped() {
    let mut mem = vec![0xc3];
    mem.extend(rect_data(20, 10));
    let res = Resource::new(mem, 0, 0, 0, 0);
    let mut v = Video::new();
    v.read_and_draw_polygon(&res, Buffer::with_offset(0, 0), 0xff, 64, Point { x: 5, y: 2 }).unwrap();
    let page = &v.pages[2];
    // x spans -5..=15, y spans -3..=7: visible 16 columns by 8 rows
    assert_eq!(count_color(page, 3), 16 * 8);
    assert_eq!(page.data[0], 3);
    assert_eq!(page.data[7 * 320 + 15], 3);
    assert_eq!(page.data[8 * 320], 0);
    assert_eq!(page.data[16], 0);
}

#[test]
fn polygon_with_given_color_and_zoom() {
    let mut mem = vec![0xc5];
    mem.extend(rect_data(4, 2));
    let res = Resource::new(mem, 0, 0, 0, 0);
    let mut v = Video::new();
    v.read_and_draw_polygon(&res, Buffer::with_offset(0, 0), 9, 128, Point { x: 100, y: 100 }).unwrap();
    // zoom 2: 8 by 4 box, 9 by 5 pixels in colour 9
    assert_eq!(count_color(&v.pages[2], 9), 9 * 5);
}

#[test]
fn two_point_polygon_is_a_line_and_flat_box_a_pixel() {
    let mem = vec![0xc7, 6, 0, 2, 0, 0, 6, 0];
    let res = Resource::new(mem, 0, 0, 0, 0);
    let mut v = Video::new();
    v.read_and_draw_polygon(&res, Buffer::with_offset(0, 0), 0xff, 64, Point { x: 10, y: 10 }).unwrap();
    assert_eq!(count_color(&v.pages[2], 7), 7);
    assert_eq!(v.pages[2].data[10 * 320 + 7], 7);
    assert_eq!(v.pages[2].data[10 * 320 + 13], 7);

    let mem = vec![0xc4, 0, 3, 4, 0, 0, 0, 3, 0, 3, 0, 0];
    let res = Resource::new(mem, 0, 0, 0, 0);
    let mut v = Video::new();
    v.read_and_draw_polygon(&res, Buffer::with_offset(0, 0), 0xff, 64, Point { x: 20, y: 30 }).unwrap();
    assert_eq!(count_color(&v.pages[2], 4), 1);
    assert_eq!(v.pages[2].data[30 * 320 + 20], 4);
}

#[test]
fn vertex_errors() {
    let res = Resource::new(vec![1, 1, 3, 0, 0], 0, 0, 0, 0);
    assert!(matches!(Polygon::read_vertices(Buffer::with_offset(0, 0), &res, 64), Err(VideoError::BadVertexCount(3))));
    let res = Resource::new(vec![1, 1, 50], 0, 0, 0, 0);
    assert!(matches!(Polygon::read_vertices(Buffer::with_offset(0, 0), &res, 64), Err(VideoError::BadVertexCount(50))));
    let res = Resource::new(vec![1, 1, 4, 0, 0], 0, 0, 0, 0);
    assert!(matches!(Polygon::read_vertices(Buffer::with_offset(0, 0), &res, 64), Err(VideoError::DataOutOfRange)));
    let res = Resource::new(vec![128, 64, 2, 10, 20, 30, 40], 0, 0, 0, 0);
    let p = Polygon::read_vertices(Buffer::with_offset(0, 0), &res, 32).unwrap();
    assert_eq!((p.bbw, p.bbh), (64, 32));
    assert_eq!(p.points, vec![(5, 10), (15, 20)]);
}

#[test]
fn invalid_discriminator_draws_nothing() {
    let res = Resource::new(vec![0x05, 0, 0, 0], 0, 0, 0, 0);
    let mut v = Video::new();
    assert_eq!(v.read_and_draw_polygon(&res, Buffer::with_offset(0, 0), 0xff, 64, Point { x: 1, y: 1 }), Ok(()));
    assert_eq!(count_color(&v.pages[2], 0), PAGE_SIZE);
}

#[test]
fn hierarchy_draws_children() {
    // at 0: hierarchy header: anchor (0,0), two children
    // child word 0x0008 -> offset 16, at (+0,+0); child 0x8008 with colour 2 at (+50, +0)
    let mut mem = vec![0u8; 64];
    mem[..15].copy_from_slice(&[0x02, 0, 0, 1, 0x00, 0x08, 0, 0, 0x80, 0x08, 50, 0, 2, 0, 0]);
    mem[16] = 0xc6;
    mem[17..28].copy_from_slice(&rect_data(2, 2));
    let res = Resource::new(mem, 0, 0, 0, 0);
    let mut v = Video::new();
    v.read_and_draw_polygon(&res, Buffer::with_offset(0, 0), 0xff, 64, Point { x: 100, y: 100 }).unwrap();
    assert_eq!(count_color(&v.pages[2], 6), 9);
    assert_eq!(count_color(&v.pages[2], 2), 9);
    assert_eq!(v.pages[2].data[100 * 320 + 100], 6);
    assert_eq!(v.pages[2].data[100 * 320 + 150], 2);
}

#[test]
fn self_referencing_hierarchy_is_too_deep() {
    let mem = vec![0x02, 0, 0, 0, 0x00, 0x00, 0, 0];
    let res = Resource::new(mem, 0, 0, 0, 0);
    let mut v = Video::new();
    let r = v.read_and_draw_polygon(&res, Buffer::with_offset(0, 0), 0xff, 64, Point { x: 1, y: 1 });
    assert_eq!(r, Err(VideoError::HierarchyTooDeep));
}

#[test]
fn sprite_operand_forms() {
    // val 0x40: word x, word y, default zoom (no byte)
    let code = [0x00, 0x10, 0x01, 0x02, 0xff, 0xf0];
    let mut vm = with_cursor(&code);
    let ops = vm.read_sprite_operands(0x40).unwrap();
    assert_eq!((ops.offset, ops.x, ops.y, ops.zoom), (0x20, 0x102, -16, 64));
    assert_eq!(vm.script_ptr, 6);
    // val 0x7e: x byte + 256, y byte, zoom byte
    let code = [0x00, 0x01, 5, 6, 0x80];
    let mut vm = with_cursor(&code);
    let ops = vm.read_sprite_operands(0x7e).unwrap();
    assert_eq!((ops.offset, ops.x, ops.y, ops.zoom), (2, 261, 6, 0x80));
    assert_eq!(vm.script_ptr, 5);
    // val 0x55: x from variable, y from variable, zoom from variable
    let code = [0x00, 0x00, 1, 2, 3];
    let mut vm = with_cursor(&code);
    vm.variables[1] = -7;
    vm.variables[2] = 9;
    vm.variables[3] = 128;
    let ops = vm.read_sprite_operands(0x55).unwrap();
    assert_eq!((ops.x, ops.y, ops.zoom), (-7, 9, 128));
    assert_eq!(vm.script_ptr, 5);
    // val 0x7b: both zoom bits: secondary segment, default zoom, no byte
    let code = [0x00, 0x00, 1, 2];
    let mut vm = with_cursor(&code);
    let ops = vm.read_sprite_operands(0x7b).unwrap();
    assert_eq!(ops.zoom, 64);
    assert_eq!(ops.seg, another_world::vm::VideoBufferSeg::Video2);
    assert_eq!(vm.script_ptr, 4);
}

#[test]
fn background_polygon_is_drawn() {
    // opcode 0x80, offset byte 0 -> cinematic offset 0; x = 100, y = 50
    let mut mem = vec![0x80, 0x00, 100, 50, 0x06];
    mem.resize(1024, 0);
    mem.push(0xc8);
    mem.extend(rect_data(2, 2));
    mem.resize(4096, 0);
    let res = Resource::new(mem, 0, 1024, 2048, 3072);
    let mut vm = VirtualMachine::new(res, Video::new());
    vm.init_for_part(0x3e81);
    vm.check_thread_requests();
    assert_eq!(run_frame(&mut vm), FrameEvent::Finished);
    assert_eq!(count_color(&vm.video.pages[2], 8), 9);
    assert_eq!(vm.video.pages[2].data[50 * 320 + 100], 8);
}

#[test]
fn fill_select_and_string_opcodes() {
    let code = [0x0d, 0x01, 0x0e, 0xff, 0x03, 0x12, 0x01, 0x02, 10, 20, 3];
    let mut vm = with_cursor(&code);
    vm.execute_instruction().unwrap();
    assert_eq!(vm.video.cur_page_ptr1, 1);
    vm.execute_instruction().unwrap();
    assert!(vm.video.pages[1].data.iter().all(|&b| b == 0x33));
    vm.execute_instruction().unwrap();
    let t = vm.video.text_requests[0];
    assert_eq!((t.string_id, t.x, t.y, t.color), (0x102, 10, 20, 3));
}

#[test]
fn redirected_thread_runs_from_next_frame_without_flag_writes() {
    // thread 0: setvec 5 -> 0x30 ; pause ; kill
    // thread 5 at 0x30: v2 = 9 ; kill
    let mut code = vec![0u8; 0x40];
    code[..6].copy_from_slice(&[0x08, 5, 0x00, 0x30, 0x06, 0x11]);
    code[0x30..0x35].copy_from_slice(&[0x00, 2, 0x00, 0x09, 0x11]);
    let mut vm = machine(&code);
    vm.check_thread_requests();
    assert_eq!(run_frame(&mut vm), FrameEvent::Finished);
    assert_eq!(vm.variables[2], 0);
    vm.check_thread_requests();
    assert_eq!(run_frame(&mut vm), FrameEvent::Finished);
    assert_eq!(vm.variables[2], 9);
    assert_eq!(vm.threads[5].pc, INACTIVE_THREAD);
}

#[test]
fn part_switch_clears_paused_flags() {
    let mut vm = machine(&[0x06]);
    vm.threads[3].paused_current = true;
    vm.threads[3].paused_requested = true;
    vm.requested_next_part = Some(0x3e82);
    assert_eq!(vm.check_thread_requests(), Some(0x3e82));
    for t in 0..64 {
        assert!(!vm.threads[t].paused_current && !vm.threads[t].paused_requested);
    }
    assert_eq!(vm.threads[0].pc, 0);
}

#[test]
fn seeded_machine_sets_seed_variable() {
    let res = Resource::new(vec![0u8; 16], 0, 0, 0, 0);
    let vm = VirtualMachine::with_seed(res, Video::new(), -1234);
    assert_eq!(vm.variables[VM_VARIABLE_RANDOM_SEED], -1234);
    assert_eq!(vm.script_ptr, 0);
}

#[test]
fn frame_step_passes_starts_and_runs() {
    let code = [0x06];
    let mut vm = machine(&code);
    vm.check_thread_requests();
    assert_eq!(vm.frame_step(), Ok(None));
    assert!(vm.in_slice);
    assert_eq!(vm.frame_step(), Ok(None));
    assert!(!vm.in_slice);
    assert_eq!(vm.frame_thread, 1);
    assert_eq!(vm.threads[0].pc, 1);
    for _ in 1..64 {
        assert_eq!(vm.frame_step(), Ok(None));
    }
    assert_eq!(vm.frame_step(), Ok(Some(FrameEvent::Finished)));
}

#[test]
fn host_frame_budget_runs_out() {
    let code = [0x07, 0x00, 0x00];
    let mut vm = machine(&code);
    vm.check_thread_requests();
    assert_eq!(vm.host_frame(10), Ok(FrameEvent::OutOfSteps));
    assert!(vm.in_slice);
}

#[test]
fn polygon_left_of_page_paints_nothing() {
    // a sloped quadrilateral wholly left of the page
    let mut mem = vec![0xc5, 40, 20, 4, 40, 0, 30, 20, 0, 20, 10, 0];
    mem.resize(16, 0);
    let res = Resource::new(mem, 0, 0, 0, 0);
    let mut v = Video::new();
    v.read_and_draw_polygon(&res, Buffer::with_offset(0, 0), 0xff, 64, Point { x: -100, y: 50 }).unwrap();
    assert_eq!(count_color(&v.pages[2], 5), 0);
}

#[test]
fn hierarchy_anchor_displacement_and_zoom() {
    // header displacement (10, 0): children sit 10 pixels left at zoom 1:1, 20 at zoom 2
    let mut mem = vec![0u8; 64];
    mem[..7].copy_from_slice(&[0x02, 10, 0, 0, 0x00, 0x08, 0]);
    mem[7] = 0;
    mem[16] = 0xc6;
    mem[17..28].copy_from_slice(&rect_data(2, 2));
    let res = Resource::new(mem, 0, 0, 0, 0);
    let mut v = Video::new();
    v.read_and_draw_polygon(&res, Buffer::with_offset(0, 0), 0xff, 128, Point { x: 100, y: 100 }).unwrap();
    // zoom 2: rectangle 4 by 4 centred on (80, 100): 5 by 5 pixels
    assert_eq!(count_color(&v.pages[2], 6), 25);
    assert_eq!(v.pages[2].data[100 * 320 + 80], 6);
}
