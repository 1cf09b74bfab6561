pub mod verify_hash;
