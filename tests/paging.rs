use toolkit_utils::paged_response::PagedResponse;

#[test]
fn second_page_of_ten_by_three() {
    let data: Vec<u32> = (0..10).collect();
    let r = PagedResponse::new(2, 3, data);
    assert_eq!(r.data, vec![3, 4, 5]);
    assert_eq!(r.number_of_pages, 4);
    assert_eq!(r.page, 2);
    assert_eq!(r.limit, 3);
    assert_eq!(r.total, 10);
}

#[test]
fn page_past_the_end_gives_last_page() {
    let data: Vec<u32> = (0..10).collect();
    let r = PagedResponse::new(9, 3, data);
    assert_eq!(r.page, 4);
    assert_eq!(r.data, vec![9]);
}

#[test]
fn page_zero_is_empty() {
    let r = PagedResponse::new(0, 3, vec![1, 2, 3]);
    assert_eq!(r.page, 0);
    assert_eq!(r.number_of_pages, 0);
    assert_eq!(r.total, 3);
    assert!(r.data.is_empty());
}

#[test]
fn limit_above_total_is_capped() {
    let r = PagedResponse::new(1, 50, vec![1, 2, 3]);
    assert_eq!(r.limit, 3);
    assert_eq!(r.number_of_pages, 1);
    assert_eq!(r.data, vec![1, 2, 3]);
}

#[test]
fn empty_list_has_no_pages() {
    let r: PagedResponse<u8> = PagedResponse::new(1, 5, vec![]);
    assert_eq!(r.number_of_pages, 0);
    assert_eq!(r.page, 0);
    assert!(r.data.is_empty());
}

#[test]
fn map_keeps_paging_numbers() {
    let r = PagedResponse::new(2, 2, vec![1, 2, 3, 4, 5]);
    let m = r.map(|x| x * 10);
    assert_eq!(m.data, vec![30, 40]);
    assert_eq!(m.page, 2);
    assert_eq!(m.number_of_pages, 3);
    assert!(m.into_result().is_ok());
}
