use restop::blocks::{placement, BlockFocus, Placement};
use restop::layout::{NavKey, OverviewArg, PageMove, SidebarAndPage};
use restop::lines_state::IndexedRange;

fn focus(heights: &[usize], view: u16) -> BlockFocus {
    let mut f = BlockFocus::new();
    f.update_blocks(&heights.to_vec());
    f.update_view_height(view);
    f
}

#[test]
fn blocks_are_laid_out_in_order() {
    let f = focus(&[3, 4, 2], 5);
    let r: Vec<(usize, usize, usize)> = f.blocks().iter().map(|b| (b.index, b.start, b.end)).collect();
    assert_eq!(r, vec![(0, 0, 3), (1, 3, 7), (2, 7, 9)]);
    assert_eq!(f.focused_index(), Some(0));
}

#[test]
fn focus_moves_between_blocks() {
    let mut f = focus(&[3, 4, 2], 5);
    f.focus_next();
    assert_eq!(f.focused_index(), Some(1));
    assert_eq!(f.show_start, 2);
    f.focus_next();
    assert_eq!(f.focused_index(), Some(2));
    assert_eq!(f.show_start, 4);
    f.focus_next();
    assert_eq!(f.focused_index(), Some(2));
    f.focus_prev();
    assert_eq!(f.focused_index(), Some(1));
    f.focus_prev();
    assert_eq!(f.focused_index(), Some(0));
    assert_eq!(f.show_start, 0);
}

#[test]
fn tall_block_scrolls_line_by_line() {
    let mut f = focus(&[10, 2], 4);
    f.focus_next();
    assert_eq!(f.show_start, 1);
    assert_eq!(f.focused_index(), Some(0));
}

#[test]
fn no_blocks_no_focus() {
    let mut f = focus(&[], 4);
    f.focus_next();
    f.focus_prev();
    assert!(f.focused().is_none());
    assert_eq!(f.focused_index(), None);
}

#[test]
fn placement_of_blocks() {
    let r = IndexedRange { index: 1, start: 3, end: 7 };
    assert_eq!(
        placement(r, 0, 10),
        Some(Placement { row: 3, height: 4, first_row: None, last_row: None })
    );
    assert_eq!(
        placement(r, 5, 6),
        Some(Placement { row: 0, height: 3, first_row: Some(2), last_row: Some(3) })
    );
    assert_eq!(placement(r, 8, 12), None);
}

#[test]
fn sidebar_and_page_navigation() {
    let mut nav = SidebarAndPage::new();
    nav.sidebar_state.update_blocks(&vec![3, 3, 3]);
    nav.sidebar_state.update_view_height(20);
    assert_eq!(nav.focused_resource(), 0);
    assert_eq!(nav.handle_key(NavKey::Down), None);
    assert_eq!(nav.focused_resource(), 1);
    assert_eq!(nav.handle_key(NavKey::Right), None);
    assert!(nav.page_focused);
    assert_eq!(nav.handle_key(NavKey::Down), Some((1, PageMove::Next)));
    assert_eq!(nav.handle_key(NavKey::Up), Some((1, PageMove::Prev)));
    assert_eq!(nav.focused_resource(), 1);
    assert_eq!(nav.handle_key(NavKey::Other), None);
    assert_eq!(nav.handle_key(NavKey::Left), None);
    assert!(!nav.page_focused);
    assert_eq!(nav.handle_key(NavKey::Up), None);
    assert_eq!(nav.focused_resource(), 0);
    let arg = OverviewArg { width: 30, focused: !nav.page_focused };
    assert!(arg.focused && arg.width == 30);
}
