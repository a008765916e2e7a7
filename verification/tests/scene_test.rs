use gauntlet::scene::{clear_rooms, link_rooms, links_valid, rooms_to_draw, sound_channel, Room, Scene, ViewNode};

fn room(view: Vec<usize>) -> Room {
    Room { path: String::from("data/level/room.glb"), view, visible: false, visit: false }
}

fn view(visible: bool, rooms: Vec<usize>) -> ViewNode {
    ViewNode { visible, room: rooms }
}

#[test]
fn room_with_no_view_is_visible() {
    let views = vec![view(false, vec![0])];
    assert!(room(vec![]).is_visible(&views));
    assert!(!room(vec![0]).is_visible(&views));
    let views = vec![view(false, vec![0]), view(true, vec![0])];
    assert!(room(vec![0, 1]).is_visible(&views));
}

#[test]
fn traverse_draws_through_visible_views() {
    // Rooms 0 - 1 joined by view 0 (visible); rooms 1 - 2 joined by view 1
    // (hidden); rooms 0 - 3 joined by view 2 (visible).
    let views = vec![view(true, vec![0, 1]), view(false, vec![1, 2]), view(true, vec![0, 3])];
    let mut rooms = vec![room(vec![0, 2]), room(vec![0, 1]), room(vec![1]), room(vec![2])];
    let mut drawn = Vec::new();
    Room::traverse(0, &views, &mut rooms, true, &mut drawn);
    assert_eq!(drawn, vec![0, 1, 3]);
    assert!(rooms[0].visible && rooms[1].visible && !rooms[2].visible && rooms[3].visible);
    assert!(rooms[0].visit && rooms[1].visit && rooms[2].visit && rooms[3].visit);
    let mut again = Vec::new();
    Room::traverse(1, &views, &mut rooms, true, &mut again);
    assert!(again.is_empty(), "a reached room is not drawn twice in a frame");
}

#[test]
fn traverse_hidden_start_unless_inside() {
    let views = vec![view(false, vec![0, 1])];
    let mut rooms = vec![room(vec![0]), room(vec![0])];
    let mut drawn = Vec::new();
    Room::traverse(0, &views, &mut rooms, false, &mut drawn);
    assert!(drawn.is_empty());
    assert!(rooms[0].visit && !rooms[0].visible);
    assert!(!rooms[1].visit);
}

#[test]
fn rooms_to_draw_cases() {
    let mut rooms = vec![room(vec![]), room(vec![])];
    let drawn = rooms_to_draw(&mut rooms, &[], Some(0));
    assert_eq!(drawn, vec![0, 1]);
    assert!(!rooms[0].visit && !rooms[1].visible);

    let views = vec![view(true, vec![0, 1])];
    let mut rooms = vec![room(vec![0]), room(vec![0]), room(vec![])];
    rooms[2].visible = true;
    rooms[2].visit = true;
    let drawn = rooms_to_draw(&mut rooms, &views, None);
    assert!(drawn.is_empty());
    assert!(!rooms[2].visible && !rooms[2].visit);
    let drawn = rooms_to_draw(&mut rooms, &views, Some(1));
    assert_eq!(drawn, vec![1, 0]);
    assert!(!rooms[2].visit);
}

#[test]
fn clear_rooms_resets_flags() {
    let mut rooms = vec![room(vec![3])];
    rooms[0].visible = true;
    rooms[0].visit = true;
    clear_rooms(&mut rooms);
    assert!(!rooms[0].visible && !rooms[0].visit);
    assert_eq!(rooms[0].view, vec![3]);
}

#[test]
fn link_rooms_joins_hits() {
    let mut rooms = vec![room(vec![]), room(vec![]), room(vec![])];
    let mut views = vec![view(false, vec![]), view(false, vec![])];
    let hits = vec![vec![true, true, false], vec![false, true, true]];
    link_rooms(&mut rooms, &mut views, &hits);
    assert_eq!(rooms[0].view, vec![0]);
    assert_eq!(rooms[1].view, vec![0, 1]);
    assert_eq!(rooms[2].view, vec![1]);
    assert_eq!(views[0].room, vec![0, 1]);
    assert_eq!(views[1].room, vec![1, 2]);
}

#[test]
fn path_nodes_found_by_cell() {
    let mut scene = Scene::new();
    assert!(scene.path_find((0, 0, 0)).is_empty());
    assert_eq!(scene.path_add((0, 0, 0)), 0);
    assert_eq!(scene.path_add((16, 0, 0)), 1);
    assert_eq!(scene.path_add((0, 0, 0)), 2);
    assert_eq!(scene.path_find((0, 0, 0)), vec![0, 2]);
    assert_eq!(scene.path_find((16, 0, 0)), vec![1]);
    assert!(scene.path_find((0, 16, 0)).is_empty());
}

#[test]
fn scene_rooms_and_views() {
    let mut scene = Scene::new();
    assert!(!scene.pause);
    assert_eq!(scene.room_add(String::from("data/level/a.glb")), 0);
    assert_eq!(scene.room_add(String::from("data/level/b.glb")), 1);
    assert_eq!(scene.view_add(), 0);
    assert_eq!(scene.room_list[1].path, "data/level/b.glb");
    assert!(!scene.room_active(None));
    assert!(!scene.room_active(Some(1)));
    scene.room_list[1].visible = true;
    assert!(scene.room_active(Some(1)));
}

#[test]
fn sound_channel_picks_free_alias() {
    assert_eq!(sound_channel(false, &vec![true, false]), None);
    assert_eq!(sound_channel(true, &vec![true, false, false]), Some(1));
    assert_eq!(sound_channel(true, &vec![true, true]), None);
    assert_eq!(sound_channel(true, &vec![]), None);
}

#[test]
fn traverse_follows_view_order_depth_first() {
    // Room 0 lists view 1 (to room 2) before view 0 (to room 1); room 2
    // leads on to room 3 through view 2.
    let views = vec![view(true, vec![0, 1]), view(true, vec![0, 2]), view(true, vec![2, 3])];
    let mut rooms = vec![room(vec![1, 0]), room(vec![0]), room(vec![1, 2]), room(vec![2])];
    let drawn = rooms_to_draw(&mut rooms, &views, Some(0));
    assert_eq!(drawn, vec![0, 2, 3, 1]);
}

#[test]
fn links_valid_checks_every_index() {
    let views = vec![view(true, vec![0, 1])];
    assert!(links_valid(&vec![room(vec![0]), room(vec![0])], &views));
    assert!(!links_valid(&vec![room(vec![1]), room(vec![0])], &views));
    assert!(!links_valid(&vec![room(vec![0])], &views));
    assert!(links_valid(&vec![], &vec![]));
}
