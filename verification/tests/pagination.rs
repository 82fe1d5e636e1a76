use oauth::domain::dtos::base::pagination::Pagination;
use oauth::domain::enums::direction::Direction;
use oauth::domain::enums::sort_direction::SortDirection;

#[test]
fn null_size_falls_back_to_default() {
    let p = Pagination::new(None, None, Direction::Next);
    assert_eq!(p.clamped_limit(), Pagination::DEFAULT_LIMIT as i64);
}

#[test]
fn zero_size_is_raised_to_min_limit() {
    let p = Pagination::new(None, Some(0), Direction::Next);
    assert_eq!(p.clamped_limit(), Pagination::MIN_LIMIT as i64);
}

#[test]
fn oversized_is_capped_at_max_limit() {
    for &size in &[51u32, 100, u32::MAX] {
        let p = Pagination::new(None, Some(size), Direction::Next);
        assert_eq!(p.clamped_limit(), Pagination::MAX_LIMIT as i64, "size={size} should be capped");
    }
}

#[test]
fn valid_size_is_kept() {
    let p = Pagination::new(None, Some(7), Direction::Next);
    assert_eq!(p.clamped_limit(), 7);
}

#[test]
fn boundaries_are_inclusive() {
    let min_p = Pagination::new(None, Some(Pagination::MIN_LIMIT), Direction::Next);
    let max_p = Pagination::new(None, Some(Pagination::MAX_LIMIT), Direction::Next);
    assert_eq!(min_p.clamped_limit(), Pagination::MIN_LIMIT as i64);
    assert_eq!(max_p.clamped_limit(), Pagination::MAX_LIMIT as i64);
}

#[test]
fn defaults_are_applied() {
    let p = Pagination::default();
    assert!(matches!(p.direction, Direction::Next));
    assert!(matches!(p.sort(), SortDirection::Asc));
    assert_eq!(p.column(), "id");
    assert_eq!(p.cursor, None);
}

#[test]
fn on_keeps_the_rest_of_the_request() {
    let original = Pagination::new(Some(42), Some(15), Direction::Prev);
    let moved = original.on("message_id", SortDirection::Desc);

    assert_eq!(moved.clamped_limit(), 15);
    assert_eq!(moved.cursor, Some(42));
    assert!(matches!(moved.direction, Direction::Prev));
    assert_eq!(moved.column(), "message_id");
    assert!(matches!(moved.sort(), SortDirection::Desc));
}

#[test]
fn default_directions_and_sort() {
    assert_eq!(Direction::default(), Direction::Next);
    assert_eq!(SortDirection::default(), SortDirection::Asc);
}

#[test]
fn size_one_above_and_below_the_range() {
    assert_eq!(Pagination::new(None, Some(50), Direction::First).clamped_limit(), 50);
    assert_eq!(Pagination::new(None, Some(1), Direction::First).clamped_limit(), 1);
    assert_eq!(Pagination::new(None, Some(2), Direction::First).clamped_limit(), 2);
}
