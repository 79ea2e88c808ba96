use minecraft_terminal_viewer::size::{target_height, Area, TerminalSize};

#[test]
fn picture_height_of_common_widths() {
    assert_eq!(target_height(0), 0);
    assert_eq!(target_height(1), 0);
    assert_eq!(target_height(2), 2);
    assert_eq!(target_height(80), 46);
    assert_eq!(target_height(120), 68);
    assert_eq!(target_height(160), 90);
    assert_eq!(target_height(65535), 36864);
    assert_eq!(target_height(u32::MAX), 2415919104);
}

#[test]
fn picture_height_is_the_least_even_one() {
    let mut before = 0;
    for width in 0..2000u32 {
        let height = target_height(width);
        let wanted = (width as usize) * 9 / 16;
        assert_eq!(height % 2, 0);
        assert!(height == wanted || height == wanted + 1);
        assert!(before <= height);
        before = height;
    }
}

#[test]
fn local_size_keeps_cells() {
    let size = TerminalSize::from_cells(120, 40);
    assert_eq!(
        size,
        TerminalSize { width: 120, height: 40, target_width: 120, target_height: 68 }
    );
}

#[test]
fn remote_size_is_cut_to_sixteen_bits() {
    let size = TerminalSize::from_request(65536 + 80, 65536 * 3 + 24);
    assert_eq!(size.width, 80);
    assert_eq!(size.height, 24);
    assert_eq!(size.target_width, 65616);
    assert_eq!(size.target_height, 36910);
    let area = Area::from_request(65536 + 80, 65536 * 3 + 24);
    assert_eq!(area, Area { x: 0, y: 0, width: 80, height: 24 });
}

#[test]
fn remote_and_local_sizes_agree() {
    assert_eq!(TerminalSize::from_request(132, 43), TerminalSize::from_cells(132, 43));
    assert_eq!(TerminalSize::from_request(65535, 1), TerminalSize::from_cells(65535, 1));
}

#[test]
fn initial_size_is_fixed() {
    assert_eq!(
        TerminalSize::initial(),
        TerminalSize { width: 80, height: 24, target_width: 80, target_height: 48 }
    );
    assert_eq!(Area::empty(), Area { x: 0, y: 0, width: 0, height: 0 });
}
