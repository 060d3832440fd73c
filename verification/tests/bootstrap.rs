use std::path::PathBuf;

use nydus_image::align::{div_round_up, round_down_4k};
use nydus_image::bootstrap::{BootstrapContext, BootstrapManager, BootstrapWriter};
use nydus_image::storage::ArtifactStorage;
use nydus_image::writer::OpenAction;

fn context() -> BootstrapContext<u8> {
    BootstrapContext::new(None, false, false).0
}

fn free_slots(ctx: &BootstrapContext<u8>) -> usize {
    ctx.v6_available_blocks.iter().enumerate().map(|(i, list)| i * list.len()).sum()
}

#[test]
fn rounding() {
    assert_eq!(div_round_up(0, 32), 0);
    assert_eq!(div_round_up(1, 32), 1);
    assert_eq!(div_round_up(32, 32), 1);
    assert_eq!(div_round_up(33, 32), 2);
    assert_eq!(div_round_up(u64::MAX, 2), 1 << 63);
    assert_eq!(div_round_up(u64::MAX, 1), u64::MAX);
    assert_eq!(round_down_4k(0), 0);
    assert_eq!(round_down_4k(4095), 0);
    assert_eq!(round_down_4k(4096), 4096);
    assert_eq!(round_down_4k(u64::MAX), u64::MAX - 4095);
}

#[test]
fn new_context_in_memory() {
    let (ctx, writer) = BootstrapContext::<u8>::new(None, true, false);
    assert!(ctx.layered && ctx.nodes.is_empty() && ctx.inode_map.is_empty());
    assert_eq!(ctx.offset, 4096);
    assert_eq!(ctx.v6_available_blocks.len(), 128);
    match writer {
        BootstrapWriter::Memory(mut memory) => assert_eq!(memory.as_reader().read(1), b""),
        BootstrapWriter::File { .. } => panic!("no storage was given"),
    }
}

#[test]
fn context_of_a_manager() {
    let storage = Some(ArtifactStorage::SingleFile(PathBuf::from("/boot")));
    let manager = BootstrapManager::new(storage, Some("reader"));
    let (ctx, writer) = manager.create_ctx::<u8>(true);
    assert!(ctx.layered);
    match writer {
        BootstrapWriter::File { writer, open } => {
            assert_eq!(writer.storage().display(), "/boot");
            assert_eq!(open, OpenAction::OpenFile { truncate: false });
        }
        BootstrapWriter::Memory(_) => panic!("a storage was given"),
    }
    let (ctx, _) = BootstrapManager::<u8>::new(None, None).create_ctx::<u8>(false);
    assert!(!ctx.layered);
}

#[test]
fn align_the_offset() {
    let mut ctx = context();
    ctx.align_offset(4096);
    assert_eq!(ctx.offset, 4096);
    ctx.offset = 4097;
    ctx.align_offset(32);
    assert_eq!(ctx.offset, 4128);
    ctx.align_offset(4096);
    assert_eq!(ctx.offset, 8192);
}

#[test]
fn nothing_to_allocate_from() {
    let mut ctx = context();
    assert_eq!(ctx.allocate_available_block(1), 0);
    ctx.append_available_block(8192);
    assert_eq!(free_slots(&ctx), 0);
    assert_eq!(ctx.allocate_available_block(0), 0);
}

#[test]
fn allocate_the_tail_of_a_block() {
    let mut ctx = context();
    ctx.append_available_block(4096 + 64);
    assert_eq!(ctx.v6_available_blocks[126], [4096]);
    assert_eq!(ctx.allocate_available_block(4096), 0);
    assert_eq!(ctx.allocate_available_block(100), 4160);
    assert_eq!(ctx.v6_available_blocks[122], [4096]);
    assert_eq!(ctx.allocate_available_block(122 * 32), 4160 + 128);
    assert_eq!(free_slots(&ctx), 0);
    assert_eq!(ctx.allocate_available_block(1), 0);
}

#[test]
fn tail_is_rounded_to_slots() {
    let mut ctx = context();
    ctx.append_available_block(8192 + 4096 - 33);
    assert_eq!(ctx.v6_available_blocks[1], [8192]);
    assert_eq!(ctx.allocate_available_block(33), 0);
    assert_eq!(ctx.allocate_available_block(32), 8192 + 4096 - 32);
    ctx.append_available_block(8191);
    assert_eq!(ctx.v6_available_blocks[0], [4096]);
    assert_eq!(ctx.allocate_available_block(1), 0);
}

#[test]
fn shortest_tail_and_oldest_block_first() {
    let mut ctx = context();
    ctx.append_available_block(2 * 4096 - 96);
    ctx.append_available_block(3 * 4096 - 64);
    ctx.append_available_block(4 * 4096 - 64);
    assert_eq!(ctx.allocate_available_block(64), 3 * 4096 - 64);
    assert_eq!(ctx.allocate_available_block(40), 4 * 4096 - 64);
    assert_eq!(ctx.allocate_available_block(40), 2 * 4096 - 96);
    assert_eq!(ctx.allocate_available_block(40), 0);
    assert_eq!(ctx.allocate_available_block(32), 2 * 4096 - 32);
}

#[test]
fn allocations_do_not_overlap() {
    let mut ctx = context();
    for block in 1..20u64 {
        ctx.append_available_block(block * 4096 + 32 * (block * 7 % 127 + 1));
    }
    let mut taken: Vec<(u64, u64)> = Vec::new();
    for step in 0..400u64 {
        let size = step * 37 % 700 + 1;
        let before = free_slots(&ctx);
        let offset = ctx.allocate_available_block(size);
        if offset == 0 {
            assert_eq!(free_slots(&ctx), before);
            continue;
        }
        assert_eq!(before - free_slots(&ctx), div_round_up(size, 32) as usize);
        assert_eq!(offset / 4096, (offset + size - 1) / 4096);
        for (start, end) in &taken {
            assert!(offset + size <= *start || *end <= offset);
        }
        taken.push((offset, offset + size));
    }
    assert!(taken.len() > 50);
}
