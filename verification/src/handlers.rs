//! The handlers of the service, one for each operation.

pub mod game;
pub mod play;
pub mod play_participant;
pub mod player;

pub use game::{
    create_game_as, create_game_handler, delete_game_handler, game_list_handler,
    get_game_handler, update_game_handler,
};
pub use play::{
    create_play_as, create_play_handler, delete_play_handler, get_play_handler,
    play_list_handler, update_play_handler,
};
pub use play_participant::{
    create_play_participant_handler, delete_play_participant_handler,
    get_play_participants_handler, play_participant_list_handler,
    update_play_participant_handler,
};
pub use player::{
    create_player_as, create_player_handler, delete_player_handler, get_player_handler,
    player_list_handler, update_player_handler,
};
