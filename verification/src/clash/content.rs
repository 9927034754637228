pub mod gunslinger;
pub mod gunslinger_skills;
pub mod items;
pub mod elementalist;
pub mod bird;
