use rust_af_xdp::umem::{UmemConfig, XskUmemInfoBuilder};

#[test]
fn invalid_fill_size() {
    let umem = XskUmemInfoBuilder::new().with_fill_size(3);

    assert!(umem.is_err());
}

#[test]
fn valid_fill_size() {
    let umem = XskUmemInfoBuilder::new().with_fill_size(2048);

    assert!(umem.is_ok());
}

#[test]
fn invalid_comp_size() {
    let umem = XskUmemInfoBuilder::new().with_comp_size(3);

    assert!(umem.is_err());
}

#[test]
fn valid_comp_size() {
    let umem = XskUmemInfoBuilder::new().with_comp_size(2048);

    assert!(umem.is_ok());
}

#[test]
fn valid_umem() {
    let umem = XskUmemInfoBuilder::new();
    assert_eq!(umem.buffer_size(), 4096 * 4096);
    let info = umem.into_info();
    assert_eq!(info.frames.len(), 4096);
    assert_eq!(info.frames[4095], 4095 * 4096);
}

#[test]
fn builder_defaults() {
    let b = XskUmemInfoBuilder::new();
    assert_eq!(
        b.config(),
        UmemConfig { fill_size: 2048, comp_size: 2048, frame_size: 4096, frame_headroom: 0, flags: 0 }
    );
    assert_eq!(b.n_frames(), 4096);
    assert_eq!(b.buffer_size(), 4096 * 4096);
}

#[test]
fn fill_size_error_message() {
    match XskUmemInfoBuilder::new().with_fill_size(6) {
        Err(e) => assert_eq!(e, "fill size should be a multiple of 2"),
        Ok(_) => panic!("6 is not a power of two"),
    }
}

#[test]
fn comp_size_error_message() {
    match XskUmemInfoBuilder::new().with_comp_size(12) {
        Err(e) => assert_eq!(e, "comp size should be a multiple of 2"),
        Ok(_) => panic!("12 is not a power of two"),
    }
}

#[test]
fn frame_size_error_names_comp_size() {
    match XskUmemInfoBuilder::new().with_frame_size(3000) {
        Err(e) => assert_eq!(e, "comp size should be a multiple of 2"),
        Ok(_) => panic!("3000 is not a power of two"),
    }
}

#[test]
fn size_one_and_largest_power_accepted() {
    assert!(XskUmemInfoBuilder::new().with_fill_size(1).is_ok());
    assert!(XskUmemInfoBuilder::new().with_comp_size(1u32 << 31).is_ok());
    assert!(XskUmemInfoBuilder::new().with_frame_size(u32::MAX).is_err());
}

#[test]
fn setters_change_only_their_field() {
    let b = XskUmemInfoBuilder::new()
        .with_fill_size(64)
        .unwrap()
        .with_comp_size(32)
        .unwrap()
        .with_frame_size(2048)
        .unwrap()
        .with_n_frames(8);
    assert_eq!(
        b.config(),
        UmemConfig { fill_size: 64, comp_size: 32, frame_size: 2048, frame_headroom: 0, flags: 0 }
    );
    assert_eq!(b.n_frames(), 8);
    assert_eq!(b.buffer_size(), 8 * 2048);
}

#[test]
fn info_lays_out_frames() {
    let info = XskUmemInfoBuilder::new()
        .with_frame_size(2048)
        .unwrap()
        .with_n_frames(4)
        .into_info();
    assert_eq!(info.frames, vec![0, 2048, 4096, 6144]);
    assert_eq!(info.n_frames, 4);
    assert_eq!(info.frame_size, 2048);
    assert_eq!(info.fill_size, 2048);
    assert_eq!(info.comp_size, 2048);
}

#[test]
fn info_of_no_frames() {
    let info = XskUmemInfoBuilder::new().with_n_frames(0).into_info();
    assert!(info.frames.is_empty());
    assert_eq!(info.free_frames(), 0);
}

#[test]
fn frames_pop_from_top_and_push_back() {
    let mut info = XskUmemInfoBuilder::new().with_n_frames(5).into_info();
    let taken = info.pop_frames(3);
    assert_eq!(taken, vec![16384, 12288, 8192]);
    assert_eq!(info.frames, vec![0, 4096]);
    // Putting them back in reverse order of popping restores the stack.
    for f in taken.iter().rev() {
        info.push_frame(*f);
    }
    assert_eq!(info.frames, vec![0, 4096, 8192, 12288, 16384]);
}

#[test]
fn frames_are_disjoint_and_inside_the_buffer() {
    let b = XskUmemInfoBuilder::new().with_n_frames(16);
    let size = b.buffer_size();
    let info = b.into_info();
    let fs = info.frame_size as u64;
    for i in 0..info.frames.len() {
        assert!(info.frames[i] + fs <= size);
        for j in (i + 1)..info.frames.len() {
            assert!(info.frames[i] + fs <= info.frames[j]);
        }
    }
}
