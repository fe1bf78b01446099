pub mod memory_core;
pub mod mmu;
pub mod program_cache;
pub mod raw_memory;
pub mod user_memory;
pub mod page_storage;
pub mod vec_memory;
pub mod btree_memory;
pub mod table_memory;
pub mod hashmap_memory;
pub mod vec_binsearch_memory;
pub mod raw_page_storage;
pub mod vec_u8_memory;
