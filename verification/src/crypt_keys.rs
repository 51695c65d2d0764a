//! Per-title cipher data.
//!
//! Each supported title carries a 256-entry byte substitution table used by
//! the content cipher, together with a 32-bit seed constant that starts the
//! per-entry key derivation. The tables are permutations of the byte values,
//! so every ciphertext byte maps to exactly one plaintext byte.

use vstd::prelude::*;

verus! {

pub const CHAOS_HEAD_SEED: u32 = 0x62CE1FCF;

pub const CHAOS_HEAD: [u8; 256] = [
    0x57, 0x33, 0x1B, 0x73, 0x58, 0x13, 0xD9, 0x2E, 0x8B, 0xA9, 0xA7, 0xC2, 0x08, 0xF9, 0x4B, 0xEF,
    0x56, 0x8A, 0xC9, 0x87, 0x2F, 0x42, 0x22, 0x2D, 0x91, 0x7E, 0xA8, 0x3A, 0x80, 0x39, 0xB2, 0x84,
    0xCC, 0x60, 0xA1, 0x53, 0x6D, 0xE8, 0xA2, 0x88, 0x41, 0x34, 0xF5, 0x3D, 0xBD, 0x1A, 0x19, 0x61,
    0x07, 0xC5, 0x67, 0x79, 0x6C, 0x5B, 0xFA, 0x2A, 0xEB, 0xF7, 0xE6, 0xB5, 0x12, 0x72, 0x66, 0x55,
    0x8D, 0x49, 0x51, 0x14, 0x69, 0x63, 0x7C, 0xD2, 0xB6, 0x21, 0x32, 0x9D, 0xC0, 0x45, 0x62, 0xE2,
    0xFE, 0x8C, 0x86, 0xA3, 0x4A, 0xC8, 0x29, 0xD3, 0x7D, 0x9B, 0x0E, 0x9F, 0xBE, 0x5C, 0xF0, 0x11,
    0x76, 0xA4, 0xB7, 0x2C, 0x82, 0x78, 0x54, 0x4D, 0x27, 0xAD, 0x0F, 0xDC, 0x20, 0x3E, 0x50, 0x09,
    0x52, 0xE9, 0x5D, 0x02, 0x43, 0xAF, 0x0D, 0x00, 0x01, 0xBA, 0x65, 0xD6, 0xE7, 0x1F, 0x4F, 0x89,
    0x35, 0x31, 0xF4, 0xB8, 0xC7, 0xAB, 0x05, 0xE4, 0x6A, 0x7A, 0x99, 0x23, 0x15, 0xBF, 0x9A, 0xDF,
    0xE5, 0x17, 0x6E, 0x74, 0xD0, 0x97, 0xDB, 0x6B, 0xBB, 0xF2, 0x96, 0x40, 0xF3, 0x03, 0x98, 0xCF,
    0x0C, 0x10, 0x3C, 0x77, 0x6F, 0x46, 0x2B, 0x75, 0x59, 0xF6, 0x1C, 0xFF, 0x30, 0xED, 0xB3, 0x48,
    0x28, 0xE3, 0xCE, 0xD1, 0x70, 0x4C, 0xA6, 0x7F, 0x1E, 0x9E, 0x24, 0xD8, 0x36, 0x4E, 0xC6, 0xCD,
    0x47, 0x8F, 0xD5, 0x5A, 0x5E, 0xB1, 0xCB, 0x3B, 0xF8, 0x90, 0x5F, 0xAC, 0x8E, 0x18, 0xB4, 0x93,
    0xD4, 0x06, 0x0A, 0x26, 0xAA, 0xEE, 0xDD, 0x9C, 0xB0, 0x92, 0xE1, 0x04, 0xFD, 0xA5, 0x7B, 0x1D,
    0xDE, 0xC3, 0x3F, 0xEC, 0x37, 0x16, 0xEA, 0xFC, 0x64, 0x81, 0xE0, 0x95, 0xAE, 0x68, 0xC4, 0xD7,
    0xBC, 0x0B, 0xFB, 0x85, 0xDA, 0xCA, 0x71, 0xF1, 0x25, 0x83, 0xA0, 0x38, 0xC1, 0x94, 0x44, 0xB9,
];

pub const CHAOS_HEAD_TRAIL_1_SEED: u32 = 0xC7440E68;

pub const CHAOS_HEAD_TRAIL_1: [u8; 256] = [
    0x73, 0xAC, 0x19, 0xE8, 0xE2, 0xB6, 0x81, 0x97, 0xB4, 0x31, 0x51, 0xE6, 0xE3, 0xC7, 0x53, 0x1A,
    0xE9, 0xC1, 0x3B, 0x0E, 0xEA, 0x2D, 0x77, 0x40, 0xC5, 0x8D, 0xE0, 0x0C, 0x38, 0x74, 0x16, 0xAF,
    0x50, 0x63, 0x47, 0xBD, 0x23, 0x1D, 0x29, 0x41, 0x87, 0x7C, 0x21, 0x8C, 0xDB, 0x48, 0x6C, 0x6A,
    0x8A, 0x8B, 0x78, 0x43, 0x42, 0x59, 0xD8, 0x30, 0x83, 0x6E, 0x44, 0x68, 0x5E, 0x34, 0xAA, 0x98,
    0x6F, 0x65, 0x84, 0x12, 0xCE, 0x54, 0xD4, 0xEB, 0xC6, 0xA0, 0xF8, 0x69, 0xA7, 0x01, 0x2C, 0xEC,
    0x3D, 0x32, 0x45, 0x0D, 0xC3, 0x9C, 0x37, 0xFA, 0xF6, 0x05, 0x06, 0xBA, 0xCA, 0x58, 0xD6, 0x56,
    0x57, 0x25, 0xD3, 0x7E, 0x71, 0x7B, 0x49, 0xBC, 0xFD, 0xD7, 0x95, 0x07, 0xB8, 0xBB, 0xBE, 0xAD,
    0x92, 0x2A, 0x2B, 0xE5, 0x0A, 0x6D, 0x27, 0xA1, 0x26, 0xC4, 0x24, 0x5A, 0x3A, 0xF7, 0xA8, 0xC0,
    0x11, 0x88, 0xA6, 0x80, 0x35, 0x0B, 0xCB, 0x15, 0x1E, 0xB1, 0xA3, 0x18, 0x3F, 0x8F, 0xE1, 0xF1,
    0x03, 0xAE, 0x52, 0x90, 0x96, 0x28, 0xF9, 0xEE, 0xB9, 0x13, 0x67, 0x20, 0xDF, 0xA2, 0x00, 0xB0,
    0x08, 0xED, 0xEF, 0x33, 0xB3, 0x70, 0x89, 0x1C, 0x93, 0xDC, 0xCF, 0x4B, 0x3C, 0x09, 0xA5, 0x7D,
    0x7A, 0xA4, 0xBF, 0x4F, 0x62, 0xE7, 0x46, 0xFB, 0x9E, 0x2E, 0xDE, 0x0F, 0x75, 0x3E, 0x5F, 0x61,
    0xD0, 0xF5, 0x4D, 0x91, 0x55, 0xAB, 0xFE, 0x14, 0x94, 0x64, 0x85, 0xCD, 0xCC, 0x22, 0x7F, 0xFC,
    0x4E, 0x99, 0xC2, 0xC8, 0xD5, 0x4A, 0xA9, 0xD1, 0x8E, 0x17, 0xDD, 0x72, 0xF3, 0xB2, 0x04, 0x76,
    0xD2, 0xC9, 0xF2, 0xE4, 0xD9, 0x2F, 0xB7, 0x36, 0x4C, 0xF4, 0x6B, 0x82, 0x60, 0xDA, 0xB5, 0x5C,
    0x9F, 0xFF, 0x9B, 0x5B, 0x9A, 0x39, 0x02, 0x1F, 0x79, 0x9D, 0x86, 0xF0, 0x5D, 0x1B, 0x10, 0x66,
];

pub const CHAOS_HEAD_TRAIL_2_SEED: u32 = 0x6C7E193F;

pub const CHAOS_HEAD_TRAIL_2: [u8; 256] = [
    0x3E, 0xBC, 0x8C, 0xB6, 0x9C, 0xCC, 0xE9, 0x72, 0xE5, 0x69, 0x15, 0xFB, 0x7D, 0x1B, 0x60, 0x8B,
    0xA9, 0x25, 0x5A, 0xB7, 0x7C, 0xA0, 0xCA, 0x1E, 0x41, 0xC3, 0x52, 0xF5, 0x3F, 0x77, 0x43, 0x22,
    0x0A, 0x65, 0xF6, 0x44, 0x32, 0xE4, 0x03, 0xF7, 0xC5, 0x2E, 0x00, 0x58, 0xE6, 0x89, 0x48, 0x47,
    0xBB, 0xEC, 0x85, 0xDA, 0xF8, 0xFE, 0x46, 0x53, 0x6A, 0x5E, 0x7F, 0x9F, 0xB9, 0x97, 0x3B, 0x38,
    0x4E, 0x4B, 0xB8, 0xA2, 0x63, 0x99, 0x1D, 0x88, 0x0B, 0xD8, 0xC7, 0x12, 0x17, 0xFD, 0xF2, 0xC2,
    0xC1, 0xF4, 0xEB, 0x87, 0x86, 0x8E, 0x66, 0x26, 0xB0, 0x20, 0x30, 0xDB, 0xB4, 0x54, 0xF9, 0x75,
    0xB5, 0xF0, 0x6B, 0x37, 0x36, 0x70, 0x1C, 0x76, 0x5F, 0xDD, 0xA5, 0xFA, 0xD7, 0xDC, 0xE1, 0x68,
    0xCE, 0x4C, 0x42, 0xB3, 0xBA, 0x6E, 0x2F, 0x82, 0x9A, 0x04, 0x49, 0xAA, 0x94, 0x56, 0x98, 0x33,
    0x24, 0x51, 0x34, 0x09, 0x78, 0x23, 0x73, 0xE8, 0xE3, 0x95, 0x81, 0x0F, 0x1A, 0x9D, 0xC8, 0x93,
    0x5C, 0x0D, 0xAE, 0x45, 0x11, 0x2C, 0x31, 0xA1, 0xF1, 0xA7, 0xFC, 0x19, 0xD6, 0x64, 0xB1, 0xBF,
    0xA4, 0xC0, 0x0C, 0xB2, 0x40, 0x4A, 0x55, 0xBD, 0xAD, 0x27, 0x39, 0xAC, 0x7E, 0x1F, 0xEE, 0xF3,
    0xC6, 0xA3, 0x6C, 0x9B, 0xDE, 0xD4, 0xEA, 0xAB, 0x6F, 0x59, 0x50, 0x3C, 0xE2, 0x21, 0xCB, 0xD2,
    0xBE, 0x5D, 0x4F, 0x3A, 0x79, 0x80, 0xDF, 0x13, 0x90, 0xD1, 0x05, 0xA6, 0x3D, 0xC9, 0xD9, 0x57,
    0x67, 0xEF, 0x61, 0x6D, 0x2B, 0x0E, 0x2D, 0x5B, 0x28, 0xFF, 0x92, 0xD5, 0x4D, 0x10, 0xED, 0x7A,
    0xCD, 0xD0, 0xCF, 0x02, 0xD3, 0xA8, 0x06, 0x71, 0x29, 0xE0, 0x16, 0x01, 0x9E, 0x84, 0xC4, 0x96,
    0x08, 0x07, 0x18, 0xE7, 0x8A, 0x14, 0x8F, 0x83, 0xAF, 0x62, 0x7B, 0x35, 0x74, 0x8D, 0x2A, 0x91,
];

pub const MURAMASA_TRIAL_SEED: u32 = 0xE588E1D7;

pub const MURAMASA_TRIAL: [u8; 256] = [
    0xB2, 0xFE, 0x5C, 0x64, 0x0F, 0xCE, 0x89, 0xBF, 0xF8, 0x1B, 0xFD, 0x22, 0x5F, 0x4D, 0xB5, 0x59,
    0x30, 0x3C, 0x8E, 0x88, 0x52, 0x50, 0x76, 0xC8, 0xB7, 0xAC, 0x5A, 0xCA, 0x25, 0xE1, 0x08, 0xD0,
    0x95, 0xE5, 0xEF, 0x2D, 0x20, 0x42, 0xD2, 0x02, 0x0D, 0xB1, 0xAB, 0x7D, 0x45, 0xCF, 0x75, 0x21,
    0x86, 0xB6, 0xA6, 0x32, 0x9E, 0xC5, 0xDF, 0xF6, 0x63, 0x60, 0x3A, 0xE7, 0x1C, 0xAE, 0xEA, 0x2F,
    0xDA, 0x37, 0x1E, 0xE9, 0x28, 0xAA, 0x2C, 0xC4, 0x40, 0x80, 0x41, 0x0E, 0xD3, 0x9D, 0x6C, 0xFB,
    0x98, 0x26, 0xC7, 0x5B, 0x7C, 0x87, 0x73, 0xA9, 0x94, 0xB8, 0x01, 0x36, 0xE6, 0xE8, 0xD4, 0xEB,
    0x38, 0xB9, 0x12, 0x34, 0x92, 0x96, 0x04, 0x29, 0x10, 0xDB, 0xC0, 0x17, 0x9C, 0x53, 0xA0, 0xA3,
    0x8F, 0xC6, 0xA7, 0x3B, 0x3E, 0x4F, 0x14, 0x09, 0x24, 0x0C, 0xF1, 0xAD, 0x07, 0xB4, 0xBA, 0xF4,
    0x2A, 0x0A, 0xBE, 0xF7, 0x65, 0x35, 0x82, 0x61, 0x05, 0xEE, 0x11, 0x67, 0x0B, 0xC2, 0x3D, 0x2B,
    0xD5, 0x15, 0xB3, 0xBD, 0xFA, 0x47, 0x9F, 0xF9, 0x74, 0xE3, 0x33, 0xD7, 0x1D, 0x31, 0x16, 0xA5,
    0x7B, 0xD1, 0x8C, 0x6F, 0x8D, 0x19, 0xC1, 0xA8, 0xF3, 0x51, 0x9B, 0x83, 0xD6, 0xFC, 0xF2, 0x3F,
    0x91, 0x7F, 0xAF, 0x9A, 0x81, 0x79, 0x4E, 0x1F, 0x69, 0x71, 0x4A, 0xDE, 0x4B, 0x43, 0x62, 0x13,
    0x39, 0xD8, 0xEC, 0x2E, 0xF5, 0x54, 0x8B, 0x77, 0xED, 0x55, 0x49, 0xE0, 0x68, 0x97, 0x7A, 0x58,
    0xC9, 0x06, 0x6A, 0xA4, 0x27, 0x5D, 0x85, 0x70, 0x56, 0x8A, 0x18, 0xDD, 0xD9, 0xCD, 0xF0, 0xE2,
    0x99, 0x6E, 0xA1, 0xE4, 0x84, 0x48, 0x6B, 0x44, 0x78, 0x72, 0x7E, 0xCB, 0xC3, 0x1A, 0xFF, 0x90,
    0xBC, 0xBB, 0x57, 0xA2, 0x66, 0x6D, 0x93, 0x23, 0x4C, 0x46, 0xCC, 0x00, 0x5E, 0xB0, 0x03, 0xDC,
];

pub const MURAMASA_SEED: u32 = 0x651FC2E8;

pub const MURAMASA: [u8; 256] = [
    0xCE, 0xEE, 0x96, 0xE9, 0x54, 0xDA, 0x1D, 0x13, 0x6C, 0xC2, 0x8D, 0x16, 0xBC, 0x99, 0xC3, 0xC0,
    0x06, 0xC8, 0x98, 0x9B, 0x37, 0xE0, 0x42, 0xEC, 0x80, 0x61, 0x7F, 0x34, 0x09, 0x8F, 0x20, 0xED,
    0xB3, 0x68, 0x27, 0xC9, 0x12, 0xA6, 0x7D, 0x6F, 0x88, 0x58, 0xF3, 0x75, 0x19, 0x39, 0x4D, 0x1A,
    0xF5, 0xC5, 0x3D, 0xEF, 0xB4, 0xBE, 0x25, 0x3A, 0x40, 0x6D, 0x51, 0x72, 0x2F, 0x5C, 0xD3, 0x64,
    0xBB, 0x0F, 0x5D, 0xCA, 0xA4, 0xFF, 0x94, 0x4E, 0x70, 0xB6, 0x53, 0x79, 0xAF, 0x05, 0xC1, 0xDE,
    0x95, 0x62, 0x10, 0x5A, 0x86, 0xAD, 0x5B, 0x29, 0x56, 0x32, 0x33, 0xE2, 0x9C, 0xE7, 0xB1, 0x90,
    0x8E, 0xFD, 0x31, 0x3F, 0xDC, 0x07, 0x4C, 0x2D, 0x49, 0xAC, 0x7A, 0xA3, 0x17, 0xFB, 0xF2, 0x41,
    0xB2, 0x21, 0xC7, 0xA0, 0x9A, 0x71, 0xA8, 0x85, 0xB0, 0xAE, 0x59, 0x82, 0xDF, 0x08, 0xAB, 0x93,
    0xFC, 0xAA, 0x8B, 0x97, 0xB5, 0xE3, 0x0C, 0x38, 0x83, 0xA2, 0x01, 0x18, 0x76, 0xE5, 0xF9, 0x1C,
    0x45, 0xF8, 0xE6, 0x0B, 0x3C, 0x0D, 0x92, 0x4B, 0x04, 0xF6, 0x6E, 0x1E, 0x46, 0x2E, 0x2C, 0x78,
    0x67, 0x3E, 0x2A, 0xF7, 0x87, 0x89, 0x11, 0x57, 0x22, 0xF0, 0xE1, 0xD4, 0xD5, 0xB8, 0xFA, 0x7B,
    0x73, 0x74, 0x50, 0x00, 0x9D, 0x66, 0x0E, 0xBA, 0x8C, 0x81, 0xD1, 0xD0, 0xF4, 0xCF, 0x28, 0x60,
    0x77, 0x55, 0xE4, 0x1B, 0xEA, 0xD7, 0x65, 0xBD, 0x5F, 0x8A, 0x9F, 0x4F, 0xB9, 0xE8, 0x02, 0x24,
    0x30, 0x36, 0x0A, 0xEB, 0xDB, 0xA9, 0xC6, 0xB7, 0x23, 0xD6, 0xCD, 0x6B, 0xBF, 0xF1, 0xA7, 0x6A,
    0x35, 0xCC, 0x7C, 0x9E, 0x14, 0xA1, 0x3B, 0x63, 0x52, 0x91, 0xFE, 0x15, 0x69, 0x03, 0xD9, 0x7E,
    0x48, 0xCB, 0xA5, 0xD2, 0x26, 0xD8, 0x44, 0x2B, 0xC4, 0x4A, 0x47, 0x1F, 0xDD, 0x5E, 0x84, 0x43,
];

pub const SUMAGA_SEED: u32 = 0x3A78ED2F;

pub const SUMAGA: [u8; 256] = [
    0xBC, 0xD5, 0xE5, 0xA6, 0xC0, 0x50, 0x9F, 0xD6, 0xAE, 0x32, 0xE6, 0x53, 0x4D, 0xD1, 0xEA, 0x66,
    0x17, 0xE3, 0xD2, 0x67, 0x88, 0x92, 0xB7, 0x76, 0xAF, 0x6A, 0x09, 0x2A, 0xBA, 0x8D, 0xF2, 0x03,
    0xF5, 0x1A, 0xB0, 0x84, 0xEF, 0xFA, 0x71, 0xB3, 0xCC, 0x89, 0x7E, 0x1D, 0x9D, 0x60, 0x77, 0x91,
    0xC9, 0xA1, 0xEC, 0x63, 0xFF, 0x95, 0x2B, 0xF6, 0x27, 0xE8, 0xE0, 0xAB, 0x41, 0xD7, 0x28, 0x47,
    0x5B, 0x0E, 0xF1, 0x26, 0x80, 0xD4, 0x02, 0x97, 0x61, 0x9A, 0x3D, 0x9C, 0xA8, 0x9E, 0xA3, 0xE7,
    0x2F, 0x62, 0x8B, 0x55, 0xBD, 0x5A, 0xDC, 0xB4, 0x81, 0xB1, 0xC8, 0xBE, 0x0B, 0x6E, 0x65, 0xD3,
    0xA9, 0xB5, 0x1C, 0x57, 0xC6, 0x29, 0x59, 0xFB, 0x19, 0x4A, 0x40, 0x0C, 0x5F, 0x0D, 0xB9, 0x22,
    0x93, 0x54, 0xA4, 0x70, 0xA5, 0x08, 0x7B, 0x12, 0xCA, 0xE1, 0x44, 0x48, 0x51, 0xAC, 0x14, 0xFD,
    0xC3, 0xCF, 0x8F, 0x3F, 0x7F, 0xF0, 0x10, 0x34, 0x56, 0x16, 0x90, 0x96, 0xA7, 0x99, 0x98, 0x39,
    0xDB, 0xFE, 0x46, 0x7C, 0x3A, 0xA0, 0x0A, 0xCD, 0x73, 0x24, 0x04, 0x69, 0x75, 0x64, 0x31, 0xDE,
    0xCB, 0x3B, 0x1B, 0xEE, 0xED, 0x78, 0xBF, 0x6F, 0xD0, 0xE4, 0xC1, 0x79, 0xF9, 0x3E, 0x05, 0xF8,
    0x8C, 0x5E, 0xB6, 0x82, 0x33, 0x74, 0x8E, 0x9B, 0x7D, 0xF4, 0x35, 0x4B, 0x43, 0xE2, 0x2C, 0x7A,
    0xD9, 0xF3, 0x2E, 0xCE, 0xB8, 0x0F, 0xC2, 0xC4, 0x87, 0x38, 0x4E, 0xC7, 0xA2, 0x07, 0xDA, 0x15,
    0xBB, 0x86, 0x01, 0x3C, 0x6D, 0x52, 0x6C, 0x68, 0x13, 0x58, 0x49, 0x18, 0x30, 0x72, 0xEB, 0xDD,
    0x25, 0x37, 0xAA, 0x21, 0xE9, 0xD8, 0x00, 0x5C, 0x5D, 0x6B, 0xAD, 0x42, 0x45, 0x2D, 0xFC, 0x85,
    0x4C, 0x8A, 0xDF, 0x36, 0x83, 0xC5, 0x20, 0x11, 0x1F, 0x4F, 0xB2, 0x1E, 0x94, 0x06, 0xF7, 0x23,
];

pub const ZOKU_SATSURIKU_NO_DJANGO_SEED: u32 = 0xF75664BC;

pub const ZOKU_SATSURIKU_NO_DJANGO: [u8; 256] = [
    0x4C, 0xB2, 0xE4, 0x1A, 0xE0, 0xF4, 0x83, 0x36, 0xD8, 0x82, 0xD4, 0x77, 0xA5, 0xAD, 0xA0, 0x45,
    0x90, 0x95, 0xC0, 0xF7, 0x4B, 0x9E, 0x92, 0x2D, 0xCD, 0xCE, 0x28, 0xF0, 0xEE, 0x3B, 0x47, 0x8A,
    0x10, 0x40, 0x5D, 0x94, 0xB6, 0x5F, 0x35, 0x6F, 0xCB, 0x22, 0xAB, 0x4F, 0x66, 0x25, 0xD2, 0xA9,
    0xF2, 0x58, 0x0A, 0x55, 0xC3, 0xA1, 0x9B, 0x97, 0xFA, 0x6B, 0x65, 0x62, 0xDF, 0x31, 0xEB, 0xE3,
    0x80, 0xCA, 0x7A, 0x43, 0x7E, 0xD1, 0x2B, 0x38, 0x29, 0x46, 0xED, 0x0F, 0xFD, 0x12, 0x19, 0x1B,
    0xC2, 0x69, 0xF3, 0x4E, 0x0E, 0x13, 0xBE, 0xB5, 0x3E, 0xDA, 0xFE, 0xC5, 0xDE, 0xAC, 0x5B, 0x60,
    0x08, 0xFB, 0x6D, 0xB9, 0x8D, 0x34, 0xA3, 0xCC, 0xEC, 0x56, 0x41, 0x93, 0xBB, 0x07, 0xBA, 0xC7,
    0xB0, 0x04, 0x84, 0x20, 0xD0, 0xE9, 0x09, 0x63, 0x4D, 0xA2, 0xC6, 0x59, 0x26, 0x9D, 0xFC, 0x0D,
    0x2C, 0x32, 0xB1, 0x11, 0xE1, 0xDD, 0x8B, 0x78, 0x3F, 0x39, 0x23, 0xFF, 0x1C, 0xD7, 0x37, 0x5A,
    0x98, 0x44, 0x68, 0x42, 0x1E, 0x8C, 0xB7, 0xD5, 0x16, 0x18, 0xE6, 0x67, 0x05, 0x89, 0x5C, 0xBC,
    0x21, 0xA8, 0x15, 0x81, 0xC9, 0xEA, 0x70, 0x03, 0x7B, 0xA7, 0x96, 0xE8, 0x33, 0x71, 0x6E, 0x7F,
    0xA6, 0x2F, 0xE2, 0xBF, 0xF8, 0x88, 0x2A, 0xB4, 0x9F, 0x57, 0x53, 0x27, 0x79, 0x14, 0xBD, 0x61,
    0x72, 0x52, 0x7D, 0x06, 0x30, 0xD3, 0x3A, 0x0C, 0xA4, 0x8E, 0x85, 0x87, 0x50, 0xD6, 0xAF, 0xB3,
    0xE5, 0x24, 0x6A, 0xF6, 0x1F, 0xDB, 0x6C, 0x02, 0xE7, 0xC4, 0x75, 0x54, 0x4A, 0x74, 0x0B, 0x48,
    0x91, 0xC8, 0xDC, 0x51, 0x7C, 0x3C, 0x5E, 0x9A, 0x01, 0x86, 0x73, 0x3D, 0xCF, 0x76, 0x49, 0x1D,
    0xEF, 0xAA, 0xB8, 0xD9, 0x17, 0x9C, 0x99, 0xF9, 0xAE, 0xC1, 0x2E, 0xF5, 0x64, 0x00, 0x8F, 0xF1,
];

pub const ZOKU_SATSURIKU_NO_DJANGO_TRIAL_SEED: u32 = 0xCFE8A51F;

pub const ZOKU_SATSURIKU_NO_DJANGO_TRIAL: [u8; 256] = [
    0x96, 0xF8, 0xE4, 0x28, 0xBE, 0xFB, 0xCB, 0xBD, 0xC5, 0xC8, 0x4F, 0x72, 0xAC, 0x97, 0xC7, 0xDC,
    0x34, 0xD4, 0x45, 0xDB, 0x3D, 0x7E, 0x87, 0x8D, 0x1E, 0xC2, 0x14, 0xC1, 0xF9, 0x9B, 0x78, 0x83,
    0x8A, 0xA2, 0xA1, 0x49, 0x23, 0xFC, 0xD6, 0x60, 0x08, 0x4C, 0x4B, 0x24, 0x6E, 0x81, 0xA5, 0xA0,
    0xE7, 0x29, 0x9F, 0xD0, 0xE2, 0x5D, 0xB3, 0x65, 0xEF, 0xD9, 0x5C, 0xCF, 0x2E, 0x64, 0x19, 0xAF,
    0x41, 0x62, 0x50, 0xFF, 0xCC, 0xBA, 0xF3, 0x5B, 0x3B, 0xF1, 0xCA, 0x1F, 0x0F, 0x13, 0xB2, 0xE6,
    0xB6, 0x0E, 0x8E, 0xB7, 0x84, 0xA9, 0x82, 0xF7, 0x38, 0xB4, 0x39, 0xB8, 0x2D, 0xCD, 0x25, 0x9A,
    0x46, 0x1D, 0x3E, 0x79, 0xED, 0x70, 0x7F, 0xEE, 0xA3, 0x74, 0x8F, 0x80, 0x33, 0x54, 0x56, 0x02,
    0x36, 0x0D, 0xAA, 0x4A, 0xDA, 0xDE, 0xA4, 0xC3, 0xAB, 0x03, 0x5E, 0x55, 0x31, 0xA6, 0x3F, 0x93,
    0x1C, 0xB1, 0x37, 0xBC, 0x8C, 0x94, 0xEB, 0x4E, 0x85, 0x3C, 0x7A, 0x16, 0x7B, 0x68, 0x9D, 0xDF,
    0x42, 0x1A, 0x5A, 0x5F, 0x48, 0xAE, 0xEA, 0x9C, 0xFD, 0x26, 0xC4, 0xD8, 0x17, 0xE8, 0x07, 0x95,
    0xFE, 0x35, 0x6B, 0x4D, 0x04, 0x27, 0x53, 0x7D, 0xB9, 0x86, 0xF0, 0x51, 0x2A, 0x59, 0xB5, 0x01,
    0xEC, 0x1B, 0x0A, 0xE3, 0x22, 0x3A, 0x2F, 0x30, 0xC9, 0x6A, 0x58, 0xF2, 0xCE, 0x32, 0x40, 0x05,
    0x69, 0xDD, 0x12, 0x09, 0xA8, 0x18, 0x44, 0xC6, 0xE0, 0x57, 0xD5, 0xA7, 0x10, 0x88, 0x98, 0x6D,
    0xF4, 0xD3, 0x66, 0xBB, 0x43, 0x0C, 0x52, 0x77, 0xBF, 0x2C, 0x73, 0x61, 0x71, 0xD2, 0x99, 0x63,
    0xAD, 0x9E, 0x6F, 0x06, 0xF6, 0x67, 0xD1, 0x00, 0x15, 0x90, 0xB0, 0xF5, 0xE5, 0x75, 0xD7, 0x21,
    0x91, 0x89, 0x76, 0xE1, 0x2B, 0xFA, 0x0B, 0xC0, 0x47, 0x20, 0x11, 0x8B, 0x6C, 0x92, 0x7C, 0xE9,
];

pub const LAMENTO_BEYOND_THE_VOID_SEED: u32 = 0xB1472ECE;

pub const LAMENTO_BEYOND_THE_VOID: [u8; 256] = [
    0x24, 0x2D, 0x08, 0x79, 0x02, 0x0F, 0xC5, 0x90, 0xB1, 0x13, 0x0D, 0xDE, 0x6B, 0x22, 0x7C, 0x48,
    0x17, 0xDC, 0x57, 0xF0, 0xDB, 0x99, 0xD1, 0xF7, 0x10, 0xA8, 0x0B, 0x4D, 0xFA, 0xB6, 0x9C, 0x59,
    0xC4, 0xFE, 0x95, 0xC3, 0xFD, 0x29, 0x1E, 0x5E, 0x23, 0x50, 0xE2, 0x00, 0xB2, 0x6F, 0x1A, 0x8D,
    0x3F, 0x6E, 0x69, 0xF2, 0x7A, 0xC9, 0xA6, 0x19, 0x60, 0x73, 0x37, 0xE4, 0xB3, 0xD0, 0x0C, 0xEA,
    0xB4, 0x72, 0xD5, 0x28, 0xD7, 0x30, 0x01, 0xFB, 0xF9, 0x81, 0x39, 0x9B, 0xF1, 0x71, 0xD4, 0x96,
    0x3B, 0xA0, 0x88, 0x9D, 0x83, 0xAA, 0xC8, 0x2E, 0x92, 0xDA, 0x21, 0x97, 0xE8, 0xE9, 0x3C, 0xAE,
    0xBA, 0x47, 0x56, 0xB7, 0x12, 0x52, 0xE1, 0x44, 0x2F, 0x5A, 0x63, 0x70, 0xE3, 0x04, 0xFF, 0xAD,
    0xA4, 0x78, 0xAF, 0x1C, 0xF3, 0xC7, 0x0A, 0x0E, 0xF8, 0x36, 0x06, 0x38, 0x8F, 0x9F, 0x31, 0xA2,
    0x65, 0xE0, 0x46, 0xDD, 0xA5, 0x64, 0x33, 0x41, 0x8E, 0xEC, 0xEB, 0x1D, 0x53, 0x7F, 0xB5, 0x32,
    0x76, 0x62, 0x66, 0x61, 0xED, 0xDF, 0x82, 0x6C, 0x42, 0x77, 0xCA, 0xAB, 0x54, 0xCB, 0x14, 0xD9,
    0x94, 0x4A, 0xBB, 0xD6, 0x45, 0x5F, 0xB0, 0x85, 0xCC, 0xC6, 0x8B, 0x07, 0xF6, 0xD2, 0x58, 0xCD,
    0xF5, 0x91, 0xA3, 0x6A, 0x1F, 0x51, 0x20, 0xFC, 0xBD, 0x34, 0xBF, 0x86, 0x98, 0x4E, 0xB9, 0x2C,
    0xEE, 0x3A, 0xA7, 0x74, 0x4B, 0xCE, 0x49, 0xA1, 0xD8, 0x9E, 0xE6, 0x75, 0x4F, 0x8C, 0x6D, 0xE7,
    0xAC, 0x9A, 0xC0, 0xB8, 0x80, 0x35, 0xEF, 0x7B, 0x11, 0xE5, 0x1B, 0x5C, 0x25, 0x2A, 0xA9, 0x87,
    0xCF, 0x09, 0xC2, 0x5D, 0x27, 0x15, 0x68, 0x26, 0x93, 0x05, 0x55, 0x89, 0xBC, 0x7D, 0x03, 0x4C,
    0x43, 0xBE, 0x3E, 0x18, 0x84, 0x7E, 0x67, 0x2B, 0x8A, 0xC1, 0x16, 0x3D, 0x5B, 0xF4, 0xD3, 0x40,
];

pub const LAMENTO_BEYOND_THE_VOID_TRIAL_SEED: u32 = 0x6D977126;

pub const LAMENTO_BEYOND_THE_VOID_TRIAL: [u8; 256] = [
    0xE2, 0xDA, 0x9E, 0x59, 0xA3, 0x2A, 0x77, 0xAD, 0xC4, 0x0A, 0x51, 0xA1, 0x0D, 0x61, 0xDD, 0x70,
    0x25, 0xBB, 0xD4, 0x4A, 0x65, 0xD6, 0x6D, 0x52, 0x0B, 0x14, 0xBD, 0xAE, 0x93, 0xFF, 0xB4, 0x67,
    0x32, 0xBF, 0xFD, 0xD8, 0x7A, 0x2F, 0x5C, 0x8C, 0x8A, 0xD1, 0xA7, 0x37, 0x39, 0x18, 0xA4, 0x62,
    0x63, 0x2E, 0xE7, 0xE4, 0x0E, 0x36, 0x86, 0x68, 0x28, 0xEF, 0xC7, 0x1D, 0x92, 0x3B, 0xE5, 0xF8,
    0x3A, 0x24, 0x4D, 0x08, 0x71, 0xF4, 0x5B, 0xE8, 0x64, 0xB2, 0x4C, 0x73, 0xC6, 0xF3, 0xC3, 0xC5,
    0xD3, 0xD5, 0x50, 0x7E, 0x48, 0xE6, 0x1A, 0x87, 0x8B, 0x42, 0x0C, 0x80, 0x3D, 0x94, 0x54, 0xA2,
    0xAA, 0x58, 0xB5, 0x98, 0xB6, 0xD2, 0x11, 0x1E, 0xFC, 0xD7, 0x78, 0x66, 0x4F, 0x40, 0xB3, 0x7F,
    0xAC, 0x15, 0xAF, 0x22, 0xE0, 0x9D, 0x0F, 0x1B, 0xFE, 0x3F, 0x43, 0xB8, 0x46, 0x27, 0xF6, 0x89,
    0x99, 0x7D, 0x8D, 0xF5, 0x6E, 0xEE, 0x9F, 0xE3, 0xD9, 0x97, 0x19, 0x8F, 0xD0, 0x81, 0x02, 0x05,
    0xC2, 0xA0, 0x75, 0x26, 0x3E, 0xCB, 0x20, 0xFA, 0x4E, 0xCE, 0xCD, 0x38, 0x34, 0xFB, 0xF2, 0x96,
    0xF0, 0x2B, 0x03, 0x04, 0x31, 0x44, 0x79, 0x17, 0x45, 0x6C, 0xAB, 0x91, 0x6A, 0x3C, 0xE9, 0xBC,
    0xB0, 0x6F, 0x06, 0xEC, 0xC0, 0x82, 0x7C, 0x76, 0x41, 0xF9, 0x5D, 0x83, 0x7B, 0x90, 0x1F, 0x9C,
    0x5A, 0x84, 0x35, 0xBA, 0x29, 0x9A, 0x49, 0x56, 0x57, 0x5F, 0x69, 0xCC, 0xB9, 0x12, 0x01, 0x2C,
    0x13, 0x6B, 0x72, 0xF7, 0xDC, 0xF1, 0xC8, 0x95, 0x09, 0x60, 0xB7, 0x21, 0x85, 0xDF, 0xA6, 0xDB,
    0x74, 0xC1, 0x33, 0x10, 0x00, 0xEB, 0x07, 0xCA, 0x16, 0x55, 0xB1, 0x53, 0x5E, 0x47, 0x88, 0x30,
    0xE1, 0xA8, 0x8E, 0xA9, 0x1C, 0x23, 0xA5, 0x4B, 0xED, 0xC9, 0xCF, 0x9B, 0xBE, 0xDE, 0x2D, 0xEA,
];

pub const SWEET_POOL_SEED: u32 = 0x2F93130C;

pub const SWEET_POOL: [u8; 256] = [
    0xEF, 0x8B, 0xFB, 0xB7, 0xF6, 0xA4, 0x3A, 0xA0, 0x5A, 0x92, 0x7C, 0xDB, 0x1A, 0x97, 0x15, 0xE3,
    0x9E, 0xB0, 0xAA, 0x6E, 0x67, 0x4F, 0x12, 0x98, 0x6B, 0x4D, 0x7E, 0x9C, 0x1E, 0x88, 0x53, 0xF2,
    0x8A, 0xF5, 0x29, 0x71, 0x23, 0xF7, 0x81, 0xE5, 0x90, 0x5D, 0xCD, 0x30, 0xB8, 0xF4, 0x28, 0xB5,
    0x27, 0x64, 0x3F, 0x22, 0x4C, 0x5B, 0xDA, 0x70, 0xD9, 0x6A, 0xD8, 0x2F, 0x85, 0xED, 0xD7, 0xA2,
    0x50, 0xDF, 0x74, 0xC7, 0x00, 0x72, 0x25, 0x44, 0xB3, 0xEC, 0x89, 0x82, 0x3E, 0x80, 0x09, 0x07,
    0x73, 0xAF, 0x99, 0x01, 0x5F, 0x19, 0xE9, 0x26, 0xE4, 0x9D, 0x76, 0x78, 0x95, 0x0F, 0xF3, 0xBF,
    0x1C, 0xCC, 0x33, 0x55, 0x9A, 0x91, 0xE7, 0x02, 0x05, 0xB2, 0x75, 0xE2, 0x8E, 0xA5, 0x34, 0xFF,
    0x1B, 0x69, 0xC0, 0x10, 0x51, 0x18, 0x0B, 0xC8, 0x38, 0x11, 0xF0, 0x56, 0x93, 0x8C, 0xEA, 0x06,
    0xD3, 0x0A, 0x2A, 0xD6, 0x9F, 0xDD, 0xDE, 0xC3, 0x7F, 0xFE, 0x45, 0xD4, 0xBC, 0x14, 0xCA, 0x21,
    0x63, 0x9B, 0xA1, 0x7B, 0xA7, 0x20, 0xC4, 0xF8, 0xD1, 0x3B, 0x58, 0xB4, 0x62, 0x94, 0xAE, 0x0E,
    0x31, 0x2B, 0x49, 0xA9, 0x4A, 0x8F, 0xBA, 0x08, 0xC9, 0xDC, 0x40, 0x52, 0x7D, 0xD5, 0xF9, 0x16,
    0x43, 0x36, 0x41, 0x8D, 0x47, 0xE1, 0x84, 0x37, 0xD0, 0xE0, 0x35, 0xA8, 0x79, 0xB9, 0x0C, 0x7A,
    0xAC, 0xD2, 0xEB, 0x3C, 0x48, 0xE8, 0x17, 0xA6, 0xAD, 0xC6, 0xE6, 0x3D, 0x6F, 0x61, 0x59, 0x2C,
    0xF1, 0x96, 0x24, 0xB6, 0x54, 0x0D, 0x2D, 0xBB, 0xFD, 0xCB, 0xFA, 0xC2, 0xCE, 0x39, 0x1D, 0x65,
    0x68, 0x86, 0x66, 0x87, 0x13, 0x03, 0xA3, 0xC1, 0xCF, 0xC5, 0x77, 0x6D, 0x83, 0x42, 0x2E, 0x4E,
    0x57, 0xFC, 0xEE, 0xBE, 0xB1, 0x04, 0x4B, 0x60, 0x6C, 0x32, 0x5C, 0x5E, 0x1F, 0xAB, 0x46, 0xBD,
];

pub const SUMAGA_SPECIAL_SEED: u32 = 0x3DD3C14E;

pub const SUMAGA_SPECIAL: [u8; 256] = [
    0x36, 0x70, 0x85, 0x4D, 0x1E, 0x57, 0x9C, 0xF6, 0xAE, 0x89, 0x15, 0x79, 0x6F, 0x93, 0x87, 0x43,
    0x72, 0x9A, 0xB2, 0x51, 0xDB, 0x99, 0xCB, 0x3A, 0xA7, 0x5B, 0x03, 0xD9, 0xD0, 0x56, 0x59, 0xD6,
    0xDA, 0xF5, 0x81, 0x33, 0xBA, 0x26, 0x5D, 0xB9, 0xA4, 0x25, 0x4A, 0xC9, 0xAF, 0xCC, 0xD4, 0xA3,
    0x6B, 0x23, 0x95, 0x46, 0x1D, 0xD1, 0x67, 0xC1, 0x0F, 0x83, 0x44, 0x21, 0xEA, 0xE2, 0xF0, 0x1F,
    0x2E, 0x8E, 0x98, 0x2B, 0x75, 0x97, 0xBC, 0x40, 0x3D, 0xB6, 0x30, 0x5C, 0xBB, 0x5E, 0x8F, 0x1C,
    0xA6, 0x7F, 0x0C, 0x0D, 0x88, 0x77, 0x8B, 0x90, 0x14, 0x3E, 0x6D, 0x62, 0xC8, 0xD2, 0x10, 0x54,
    0x17, 0xC7, 0x31, 0x01, 0x38, 0x3C, 0xFA, 0xB8, 0x6A, 0xBD, 0xBE, 0xAA, 0xA0, 0x61, 0x00, 0x66,
    0xC3, 0x60, 0xEC, 0xC4, 0x73, 0xEE, 0xAC, 0xF7, 0x41, 0x64, 0xF8, 0xE8, 0x74, 0x39, 0x0E, 0x7D,
    0xF1, 0xCD, 0xA9, 0xB7, 0xA2, 0xC0, 0x52, 0x49, 0xFB, 0x91, 0xBF, 0x5F, 0xCF, 0x50, 0x65, 0x12,
    0xAB, 0xC5, 0x5A, 0x02, 0x8A, 0x1A, 0x4C, 0x09, 0xE6, 0x06, 0x28, 0x34, 0x47, 0x9E, 0x6E, 0x1B,
    0x53, 0xD7, 0x16, 0x4F, 0xF3, 0xE3, 0xDC, 0xE1, 0xE0, 0x2D, 0xF9, 0x76, 0x94, 0x2C, 0x82, 0xCE,
    0x42, 0x7C, 0xFC, 0x20, 0xB1, 0x0A, 0xCA, 0xFE, 0x37, 0xAD, 0xC6, 0x35, 0xFD, 0xF4, 0xB5, 0x68,
    0xDE, 0x2A, 0x8D, 0x04, 0x80, 0xC2, 0xED, 0xB3, 0xD5, 0xDF, 0x86, 0x45, 0x58, 0x9D, 0x24, 0xA1,
    0xEF, 0xD3, 0x11, 0x3F, 0x84, 0xB4, 0x2F, 0xA8, 0x29, 0x6C, 0xE4, 0xE7, 0x4E, 0x27, 0x08, 0xEB,
    0xD8, 0xF2, 0x96, 0x3B, 0x05, 0x48, 0x19, 0x63, 0xFF, 0x7B, 0x7A, 0xE5, 0x22, 0x7E, 0xE9, 0x4B,
    0xDD, 0x55, 0x0B, 0x92, 0xB0, 0x9F, 0x69, 0x07, 0x18, 0x13, 0x78, 0x32, 0x9B, 0x71, 0xA5, 0x8C,
];

pub const DEMONBANE_THE_BEST_SEED: u32 = 0x19E6773D;

pub const DEMONBANE_THE_BEST: [u8; 256] = [
    0x0D, 0x08, 0x82, 0x79, 0x3D, 0x99, 0xE9, 0x8E, 0xB9, 0x9F, 0x67, 0x3B, 0x2B, 0x6D, 0xB0, 0x06,
    0xD0, 0x28, 0x8A, 0x18, 0x90, 0x5D, 0x00, 0x5B, 0x9A, 0x62, 0x11, 0x74, 0xC2, 0xF0, 0x5C, 0x9E,
    0x93, 0x43, 0xB2, 0x22, 0xFA, 0x53, 0x85, 0x86, 0xC3, 0xB1, 0x80, 0xF2, 0xE2, 0x60, 0xD9, 0x54,
    0x49, 0xA4, 0x32, 0x41, 0x7A, 0x02, 0x30, 0x44, 0xC5, 0xE5, 0xF4, 0x25, 0x35, 0x07, 0xC1, 0x0F,
    0xDE, 0x72, 0xAE, 0x04, 0xEF, 0xA0, 0x78, 0x96, 0x7E, 0x64, 0x57, 0x81, 0x2E, 0x3C, 0x2A, 0x8F,
    0xF7, 0xD7, 0xDD, 0x58, 0x6A, 0x1E, 0x51, 0x24, 0x73, 0x75, 0xEE, 0x55, 0x9D, 0x38, 0xB7, 0xA6,
    0x4C, 0xE6, 0x33, 0x7B, 0x52, 0xF3, 0xAF, 0x9B, 0x92, 0x21, 0x3E, 0xEA, 0x34, 0xFC, 0xC0, 0xC4,
    0x16, 0xDC, 0xCD, 0x17, 0x14, 0x4A, 0x4D, 0xA7, 0x05, 0xDF, 0xDA, 0x95, 0x46, 0xD6, 0xEC, 0xCF,
    0xFB, 0x4B, 0x3A, 0xED, 0x5F, 0xF1, 0x13, 0x27, 0x8B, 0x61, 0x1D, 0xA3, 0x42, 0xFD, 0xC8, 0x1C,
    0x66, 0x1B, 0x19, 0x77, 0x9C, 0x69, 0xF6, 0x0E, 0xB3, 0x6F, 0x56, 0x40, 0xA5, 0xE4, 0xCC, 0x76,
    0xFF, 0xB8, 0xD4, 0xBE, 0x39, 0xA1, 0x15, 0x6E, 0x8C, 0xA8, 0x0B, 0xD2, 0x10, 0x01, 0x1A, 0x2C,
    0x98, 0x70, 0x7D, 0xCA, 0x36, 0x0A, 0x0C, 0x6B, 0xB4, 0xD5, 0x12, 0x29, 0xCB, 0xE1, 0x09, 0xBD,
    0xC9, 0xA2, 0xC6, 0x63, 0x37, 0xAB, 0xEB, 0x83, 0x48, 0xAD, 0xAA, 0xE7, 0xF8, 0x47, 0x68, 0x2D,
    0xD3, 0x1F, 0x8D, 0xBB, 0xDB, 0x50, 0x7F, 0x94, 0xFE, 0x5E, 0x3F, 0xD1, 0xBF, 0x97, 0xE3, 0x7C,
    0x31, 0x4F, 0xA9, 0x59, 0xBA, 0xBC, 0x5A, 0x89, 0xC7, 0x71, 0xB6, 0xB5, 0x2F, 0xCE, 0xE8, 0x87,
    0x26, 0x6C, 0x20, 0x45, 0xF9, 0x03, 0x4E, 0xF5, 0x23, 0x84, 0xAC, 0xE0, 0x88, 0x91, 0x65, 0xD8,
];

pub const MURAMASA_AD_SEED: u32 = 0x6F491629;

pub const MURAMASA_AD: [u8; 256] = [
    0x9C, 0x7E, 0x3E, 0xA5, 0x99, 0x80, 0x20, 0xD7, 0x6F, 0x9F, 0xC5, 0x82, 0xCD, 0x08, 0x4A, 0x23,
    0xD9, 0xC0, 0x51, 0x31, 0x0D, 0x4B, 0x66, 0xC6, 0x1F, 0x54, 0x72, 0x71, 0x27, 0x65, 0x0A, 0x02,
    0xCC, 0xA6, 0x34, 0x24, 0x38, 0x13, 0x30, 0xA8, 0xF2, 0xBA, 0x75, 0x97, 0xFF, 0x6C, 0xDA, 0xD2,
    0xE3, 0x46, 0x48, 0x4E, 0xB8, 0x77, 0x16, 0x74, 0xE5, 0xCE, 0x14, 0xF5, 0x21, 0x98, 0x03, 0x07,
    0xF6, 0xDD, 0xC2, 0xA1, 0x73, 0x1A, 0x00, 0x01, 0x83, 0xEC, 0x57, 0x94, 0x0F, 0x40, 0xD6, 0x1E,
    0x2B, 0xBB, 0xDC, 0xA2, 0xAB, 0x2C, 0xB0, 0xF0, 0xC8, 0x62, 0x06, 0x2F, 0x3A, 0x92, 0xEB, 0x11,
    0x5F, 0xD1, 0xE9, 0x6B, 0x87, 0x60, 0x85, 0x5D, 0x3B, 0x5B, 0x9A, 0xFE, 0xCF, 0xA9, 0xE2, 0xAC,
    0xF4, 0x79, 0xA4, 0xB5, 0xC4, 0x2D, 0x8C, 0x9B, 0xF8, 0x8E, 0x26, 0x4C, 0x0E, 0xEF, 0x61, 0x86,
    0xFD, 0x8D, 0x3D, 0x89, 0x28, 0x4F, 0x12, 0x17, 0x0C, 0x35, 0x8B, 0x5E, 0xC7, 0xF7, 0xD3, 0xD5,
    0x90, 0x18, 0x6E, 0x41, 0xDE, 0xAD, 0xD4, 0x69, 0xBE, 0x3F, 0xFC, 0x1D, 0x05, 0xFB, 0xE0, 0xA7,
    0xB9, 0xB3, 0x42, 0xBC, 0xAA, 0x7D, 0x1B, 0x36, 0x81, 0x5A, 0x6D, 0xC1, 0xAF, 0xDB, 0x15, 0x19,
    0x3C, 0xC3, 0xB6, 0xFA, 0xD0, 0x22, 0x67, 0x8A, 0xEA, 0x04, 0x2A, 0x32, 0x39, 0x6A, 0x95, 0x09,
    0xCA, 0x59, 0xB7, 0xF9, 0x25, 0xCB, 0x9D, 0xE4, 0x43, 0xA0, 0xED, 0x5C, 0x53, 0x44, 0x37, 0xA3,
    0xE6, 0x8F, 0x7A, 0xB2, 0xE7, 0xE8, 0x68, 0x4D, 0x29, 0x10, 0x33, 0x63, 0x64, 0xBD, 0x91, 0x1C,
    0xD8, 0xB1, 0x70, 0x45, 0x52, 0x78, 0x7F, 0xEE, 0xE1, 0xC9, 0xB4, 0x2E, 0x76, 0x9E, 0x49, 0x7C,
    0xF1, 0xDF, 0x88, 0x7B, 0x84, 0x0B, 0x56, 0x58, 0x93, 0x55, 0xF3, 0xBF, 0x96, 0x47, 0xAE, 0x50,
];

pub const AXANAEL_TRIAL_SEED: u32 = 0x7A80B8AE;

pub const AXANAEL_TRIAL: [u8; 256] = [
    0x66, 0xEC, 0x3F, 0x71, 0xC9, 0x1C, 0xF4, 0x26, 0xB2, 0x32, 0x02, 0x89, 0x00, 0xD5, 0xF3, 0x49,
    0xA3, 0xA1, 0x5E, 0x05, 0x9D, 0xDF, 0x12, 0xDE, 0xB1, 0x4B, 0xAF, 0xEF, 0x2F, 0xC6, 0x73, 0x90,
    0x0C, 0x98, 0x8C, 0xE8, 0xE4, 0xE5, 0xF8, 0xD0, 0xAB, 0x53, 0x99, 0x78, 0x21, 0xB0, 0x82, 0x33,
    0xB3, 0x03, 0x63, 0x83, 0xDD, 0xC2, 0xA6, 0xFD, 0x18, 0x3E, 0x50, 0x43, 0x67, 0x95, 0xB5, 0xCD,
    0x39, 0x56, 0xB8, 0x2A, 0x94, 0xD6, 0x96, 0x31, 0x4A, 0x4C, 0x92, 0x29, 0xE0, 0x3A, 0xFC, 0x72,
    0x7D, 0x7E, 0x7C, 0xBC, 0xD4, 0xA5, 0xC8, 0x77, 0x62, 0x60, 0x2E, 0x27, 0x6F, 0x64, 0xE9, 0x30,
    0xCF, 0xA7, 0x91, 0x55, 0x80, 0x2B, 0xC7, 0x37, 0x10, 0x4E, 0xFA, 0x1F, 0x59, 0xE6, 0x81, 0x93,
    0x70, 0x0B, 0x38, 0x58, 0x20, 0xE7, 0x68, 0x52, 0x86, 0x9C, 0xE1, 0xD9, 0xAE, 0x1D, 0x42, 0xBA,
    0x75, 0x41, 0xD1, 0xC5, 0xFF, 0x8B, 0x9A, 0x06, 0x1A, 0xB4, 0xCA, 0x35, 0xF7, 0x3C, 0xF9, 0xCB,
    0x45, 0xA4, 0x61, 0xA2, 0x08, 0xE3, 0x97, 0x1B, 0x40, 0xFE, 0x57, 0x1E, 0x23, 0xA0, 0xC0, 0x16,
    0xF2, 0x15, 0x28, 0xCC, 0xAD, 0x8D, 0xAA, 0x0E, 0x14, 0x7B, 0x88, 0x8A, 0xB9, 0x24, 0x17, 0xEB,
    0x22, 0x79, 0x07, 0x5D, 0x9F, 0x69, 0x9B, 0xCE, 0xF6, 0x01, 0xDB, 0x25, 0x54, 0x5B, 0x51, 0x5F,
    0x84, 0x8E, 0x8F, 0x19, 0x7F, 0x6A, 0xD2, 0x5A, 0xF5, 0x5C, 0xBB, 0xE2, 0xDC, 0xBF, 0xC4, 0xD3,
    0x4F, 0xEE, 0xBD, 0x65, 0x04, 0xED, 0xFB, 0xF1, 0x9E, 0xDA, 0xB6, 0x2C, 0x34, 0x47, 0x48, 0xBE,
    0x2D, 0x09, 0xA9, 0x3B, 0xC3, 0x76, 0xC1, 0x6D, 0xA8, 0x6E, 0x44, 0x0F, 0x0A, 0x4D, 0x6B, 0x11,
    0xEA, 0x7A, 0x3D, 0x36, 0x13, 0xD7, 0x46, 0x85, 0xAC, 0x6C, 0x0D, 0xD8, 0xB7, 0x87, 0xF0, 0x74,
];

pub const KIKOKUGAI_N2SYSTEM_SEED: u32 = 0x831B20A3;

pub const KIKOKUGAI_N2SYSTEM: [u8; 256] = [
    0x49, 0xB5, 0xDF, 0xA1, 0x65, 0x38, 0x7A, 0x1F, 0xC5, 0xB9, 0x1D, 0xDD, 0xCF, 0x63, 0xE3, 0x40,
    0xB3, 0x82, 0xF1, 0x79, 0x56, 0x6E, 0xAD, 0x42, 0xFF, 0x0E, 0x6C, 0x12, 0x06, 0x21, 0x4C, 0x7E,
    0x32, 0xF9, 0x6A, 0x64, 0xAE, 0xC8, 0xF4, 0xBC, 0x54, 0x5A, 0xA3, 0x2A, 0x4A, 0xB1, 0x27, 0x85,
    0x7D, 0xFB, 0xFD, 0xD2, 0x46, 0x1B, 0x70, 0x11, 0x3C, 0x81, 0x55, 0x05, 0x02, 0x72, 0x08, 0xB4,
    0xA0, 0x10, 0xC0, 0xFE, 0x13, 0xDC, 0xBB, 0x2F, 0xA2, 0xAC, 0x20, 0x4B, 0x7C, 0x86, 0xCC, 0x4D,
    0xE4, 0xFA, 0xAF, 0xBE, 0x87, 0x28, 0x80, 0x52, 0x98, 0x88, 0x1A, 0xDA, 0xC3, 0x50, 0xF3, 0xA8,
    0xED, 0xA9, 0x4F, 0x36, 0xEF, 0x73, 0x22, 0x89, 0x83, 0x04, 0x68, 0xCD, 0x99, 0x53, 0x9F, 0xBF,
    0x96, 0x59, 0x48, 0xC6, 0x58, 0x8B, 0xC7, 0x5C, 0x94, 0x6B, 0xC1, 0xC4, 0xA7, 0x78, 0xD1, 0xBD,
    0xBA, 0x90, 0xD0, 0x74, 0x17, 0xEC, 0xE6, 0xEE, 0x34, 0x84, 0x93, 0x77, 0xD3, 0xE5, 0x44, 0x57,
    0xE7, 0xDB, 0x3A, 0x33, 0x91, 0xF0, 0x2D, 0x9A, 0x2E, 0x24, 0xF2, 0x8D, 0x8E, 0x26, 0xD5, 0x8A,
    0x3E, 0x0C, 0x45, 0xDE, 0xC2, 0x01, 0xB8, 0xD6, 0x1C, 0x0F, 0xCE, 0x7F, 0x3F, 0xEA, 0x3B, 0x43,
    0xCB, 0xF5, 0xD7, 0x16, 0xAB, 0xB6, 0x76, 0x62, 0x47, 0x09, 0x75, 0xF7, 0xD9, 0x00, 0xB0, 0x6D,
    0xD8, 0x95, 0x18, 0x15, 0x60, 0x69, 0xE2, 0x51, 0x25, 0xAA, 0x03, 0x1E, 0x2C, 0xC9, 0xB2, 0x3D,
    0x71, 0x41, 0xE9, 0x2B, 0x37, 0x5B, 0xFC, 0x07, 0x9E, 0x19, 0x97, 0xA4, 0xF8, 0x4E, 0x8C, 0x8F,
    0xF6, 0x14, 0x31, 0x6F, 0x5D, 0x29, 0xE0, 0xD4, 0x66, 0xCA, 0x7B, 0xE1, 0xA6, 0x0A, 0xB7, 0x0D,
    0x9C, 0x0B, 0x67, 0x23, 0x9D, 0xEB, 0x9B, 0xE8, 0x30, 0x92, 0x5F, 0x39, 0x35, 0x61, 0xA5, 0x5E,
];

pub const SONICOMI_TRIAL_2_SEED: u32 = 0x3785E85E;

pub const SONICOMI_TRIAL_2: [u8; 256] = [
    0x23, 0x1E, 0x97, 0x41, 0x5D, 0xA8, 0xEC, 0xED, 0x68, 0x40, 0x32, 0x46, 0xA5, 0x0A, 0x85, 0x70,
    0x27, 0x42, 0x7B, 0x3A, 0x0F, 0x93, 0xDD, 0xB5, 0x94, 0x56, 0x80, 0xC4, 0x2B, 0x7C, 0x86, 0xFE,
    0xD6, 0x8C, 0x22, 0x81, 0xDE, 0x66, 0x3E, 0x96, 0xB2, 0x63, 0x38, 0x8B, 0xF2, 0x6C, 0xD9, 0x02,
    0xFB, 0x3C, 0x2C, 0xA4, 0x4C, 0xD7, 0x0E, 0xC3, 0xB0, 0xF6, 0x4A, 0x64, 0x5F, 0x52, 0x50, 0xA0,
    0x14, 0x2D, 0xAA, 0x87, 0x84, 0x89, 0x04, 0xC8, 0x3D, 0x6F, 0x82, 0xFD, 0x2F, 0x28, 0x11, 0x1A,
    0xBB, 0x34, 0x4E, 0xA7, 0xA3, 0xAC, 0xA2, 0x57, 0xE8, 0xEB, 0xD8, 0xA9, 0x43, 0xE4, 0x6B, 0xE7,
    0xD4, 0x15, 0x7F, 0xCF, 0xDA, 0x76, 0x7E, 0x78, 0xBD, 0x8E, 0x44, 0xC6, 0xF9, 0x75, 0x95, 0xFF,
    0x5B, 0x5E, 0xD1, 0xF0, 0xF7, 0x4B, 0x37, 0x45, 0x58, 0x53, 0x73, 0x9B, 0x55, 0x05, 0x1B, 0x77,
    0xC5, 0x0B, 0xF8, 0xC0, 0xA1, 0xCA, 0xA6, 0xB1, 0xAF, 0x06, 0xC1, 0x9D, 0x60, 0x9C, 0x39, 0xF5,
    0x09, 0x59, 0x29, 0xE9, 0x07, 0x8D, 0x71, 0xB9, 0xBC, 0xB4, 0x0C, 0x6E, 0xE5, 0xE6, 0xC9, 0xDC,
    0x79, 0x10, 0x2A, 0x13, 0xAD, 0x90, 0x9F, 0x69, 0xE1, 0x01, 0xCD, 0x19, 0xBF, 0xB6, 0x08, 0xF4,
    0xC7, 0xBE, 0x24, 0x3B, 0xD3, 0x2E, 0x88, 0xEE, 0xE3, 0x25, 0xDF, 0x30, 0xEF, 0x18, 0x61, 0xAB,
    0x1D, 0xFA, 0xD2, 0x62, 0xCB, 0x00, 0x35, 0xCC, 0x21, 0x72, 0x0D, 0xBA, 0xC2, 0x1F, 0x8F, 0x99,
    0xE2, 0xF1, 0x31, 0xCE, 0x1C, 0x49, 0x92, 0xF3, 0x3F, 0x54, 0xB3, 0x7D, 0x6D, 0xD0, 0x51, 0x83,
    0x5A, 0xAE, 0x4D, 0x4F, 0x7A, 0xB7, 0xDB, 0x16, 0x17, 0x65, 0x9A, 0xEA, 0x12, 0x26, 0xE0, 0x98,
    0x36, 0x20, 0x47, 0x6A, 0x5C, 0x8A, 0xB8, 0x03, 0x91, 0x48, 0x74, 0x33, 0xD5, 0x67, 0x9E, 0xFC,
];

pub const SUMAGA_3_PERCENT_TRIAL_SEED: u32 = 0x0948E159;

pub const SUMAGA_3_PERCENT_TRIAL: [u8; 256] = [
    0xFE, 0x70, 0x7D, 0x22, 0xE5, 0x2C, 0xA6, 0x0C, 0x36, 0xF3, 0xB8, 0xFB, 0x75, 0x47, 0x96, 0xE3,
    0xEF, 0x17, 0xD8, 0x2E, 0xFF, 0x1C, 0x4E, 0x37, 0x3F, 0x8B, 0x63, 0xBD, 0x1B, 0xA8, 0x4A, 0xC4,
    0x26, 0x15, 0x8E, 0xC9, 0x0A, 0x46, 0x86, 0xF1, 0x66, 0x11, 0xE2, 0x29, 0x83, 0x84, 0xC6, 0x98,
    0xD5, 0x5B, 0xDE, 0x31, 0x41, 0xFA, 0x89, 0x01, 0x00, 0xF5, 0x5A, 0xD6, 0x27, 0x9F, 0x76, 0xB3,
    0xC2, 0xD9, 0x81, 0x78, 0x58, 0xDA, 0x6F, 0x7C, 0xA1, 0xED, 0x40, 0x99, 0x21, 0xB4, 0xA2, 0xEA,
    0x04, 0xF2, 0x52, 0xBE, 0xC8, 0x91, 0x3E, 0xA7, 0xCF, 0x48, 0x51, 0x87, 0x61, 0x1A, 0xF0, 0x60,
    0x13, 0xA4, 0xCE, 0x54, 0xEC, 0x88, 0xDD, 0xCD, 0xA3, 0xEE, 0x1E, 0x2D, 0x72, 0x25, 0xF4, 0x06,
    0x82, 0xE8, 0x8C, 0xBB, 0x16, 0xC0, 0xD2, 0xD0, 0x55, 0x0F, 0xF9, 0xAE, 0x97, 0x38, 0xC3, 0x9D,
    0xA9, 0xFD, 0xA0, 0xEB, 0x56, 0x77, 0x7F, 0x4F, 0x64, 0x34, 0x9E, 0x7B, 0xB1, 0xD3, 0x30, 0xE0,
    0x2B, 0xB6, 0x1F, 0x68, 0x53, 0x43, 0x95, 0x9B, 0xB0, 0xD1, 0x14, 0xB5, 0x9A, 0xAC, 0xCC, 0x0B,
    0x4C, 0x35, 0x4D, 0xFC, 0x7A, 0xC5, 0x05, 0x79, 0xE7, 0xBA, 0xB7, 0xAB, 0x57, 0x8F, 0xB9, 0x69,
    0xD4, 0x6B, 0x90, 0xDC, 0x8D, 0x23, 0x6A, 0xF7, 0xE9, 0x49, 0x28, 0x59, 0xF6, 0x8A, 0x3A, 0xCA,
    0x67, 0xB2, 0x19, 0x6C, 0xE6, 0xBC, 0x10, 0xF8, 0x07, 0x09, 0x33, 0xDF, 0x4B, 0x45, 0x3D, 0x0E,
    0x92, 0x3B, 0xAD, 0xAA, 0x5F, 0xC7, 0xDB, 0x12, 0x5D, 0x42, 0xAF, 0x94, 0x1D, 0x7E, 0x5C, 0x62,
    0xE4, 0x6E, 0x2F, 0x44, 0x18, 0x9C, 0x0D, 0x32, 0x39, 0x5E, 0x50, 0x73, 0x6D, 0xCB, 0x08, 0x02,
    0x93, 0x24, 0x85, 0xA5, 0xC1, 0xD7, 0x71, 0x03, 0xE1, 0x80, 0xBF, 0x65, 0x20, 0x74, 0x3C, 0x2A,
];

pub const SONICOMI_SEED: u32 = 0x8C2C87F6;

pub const SONICOMI: [u8; 256] = [
    0x12, 0x25, 0x30, 0x72, 0x03, 0x7E, 0x17, 0xFA, 0xF8, 0xF1, 0x39, 0x60, 0x44, 0xB3, 0x94, 0xF5,
    0x78, 0x22, 0x49, 0x0F, 0x9F, 0xCD, 0xA3, 0x6D, 0xC3, 0xEF, 0xEC, 0x9C, 0xBD, 0xB6, 0x85, 0xC1,
    0x32, 0xDF, 0x86, 0x8A, 0x87, 0x8B, 0xCC, 0x26, 0x98, 0x13, 0xC0, 0x83, 0x09, 0x02, 0x3B, 0x2E,
    0xB7, 0xFC, 0x54, 0x38, 0x19, 0x27, 0x9B, 0xF0, 0x6B, 0xDB, 0x04, 0xFF, 0xF9, 0x58, 0xD5, 0x05,
    0x10, 0xF4, 0x92, 0xD0, 0xAF, 0xBA, 0x0E, 0x97, 0x4C, 0x4E, 0xEE, 0xA5, 0xB0, 0x55, 0xF6, 0xAD,
    0x47, 0x61, 0xA1, 0x3F, 0x34, 0x57, 0xE7, 0xAE, 0x91, 0xE3, 0x23, 0x99, 0x5C, 0x74, 0x93, 0x20,
    0x4A, 0x90, 0x5F, 0xBB, 0xDC, 0x41, 0x67, 0x42, 0xCA, 0x73, 0x31, 0x5B, 0x3E, 0x6A, 0xFD, 0xD9,
    0x01, 0xC6, 0xE9, 0x0B, 0x63, 0xBC, 0x88, 0xF3, 0xED, 0xC5, 0x7F, 0x1D, 0xD4, 0xD7, 0xAC, 0x64,
    0x35, 0x80, 0x70, 0x82, 0x0C, 0x1E, 0xA7, 0xA9, 0x76, 0x8E, 0x6E, 0x95, 0xD2, 0xFE, 0x46, 0xDD,
    0x0A, 0x2B, 0xCF, 0x75, 0x4D, 0x8F, 0xC4, 0xB8, 0x68, 0x7D, 0x0D, 0xBF, 0x9A, 0xA6, 0xC8, 0x24,
    0xC9, 0x7C, 0x69, 0x4B, 0xA4, 0x5D, 0xD8, 0x84, 0x16, 0x1F, 0x2C, 0xA0, 0x51, 0x37, 0x11, 0x5E,
    0x50, 0xBE, 0xDE, 0x48, 0x79, 0x15, 0x9E, 0x33, 0x2A, 0xEB, 0x00, 0xE6, 0x8D, 0x3A, 0x62, 0x29,
    0xE8, 0x6F, 0x59, 0xA2, 0x65, 0x3C, 0x1B, 0xC7, 0x7A, 0x28, 0xD3, 0xA8, 0x08, 0x53, 0xB9, 0x45,
    0xDA, 0x2D, 0xEA, 0xFB, 0x4F, 0x1A, 0xE1, 0xB1, 0x14, 0x21, 0x9D, 0x66, 0xE0, 0x52, 0x96, 0x1C,
    0xB4, 0x40, 0x89, 0xCB, 0x6C, 0x06, 0xF2, 0xB2, 0x2F, 0x8C, 0xF7, 0x7B, 0xE5, 0xAA, 0x43, 0xD1,
    0xE2, 0x56, 0x5A, 0x18, 0xC2, 0xD6, 0xE4, 0x77, 0xAB, 0x07, 0xB5, 0x3D, 0x81, 0xCE, 0x71, 0x36,
];

pub const GUILTY_CROWN_LOST_XMAS_SEED: u32 = 0xF31B590C;

pub const GUILTY_CROWN_LOST_XMAS: [u8; 256] = [
    0x42, 0x28, 0xE7, 0xC6, 0xF3, 0x50, 0x8F, 0x93, 0x7F, 0x84, 0x85, 0x1F, 0x8B, 0x27, 0x94, 0xB7,
    0x74, 0x08, 0x09, 0x4A, 0x9A, 0x12, 0xBB, 0x11, 0x0A, 0x9C, 0xF1, 0xC5, 0x53, 0xB4, 0x19, 0xEA,
    0xF6, 0xCB, 0xD9, 0xEC, 0x1A, 0xE5, 0xC1, 0xCF, 0xFB, 0xBE, 0x59, 0x99, 0x62, 0x7D, 0x3D, 0x96,
    0x52, 0x92, 0x47, 0xE9, 0x68, 0x7E, 0x0E, 0x18, 0x5D, 0x07, 0xD7, 0x2E, 0xAA, 0x4E, 0xFF, 0x14,
    0xA9, 0xCE, 0xC3, 0xE1, 0xEE, 0x95, 0x80, 0x3E, 0xD5, 0x60, 0x0D, 0x61, 0x9D, 0xBD, 0xF9, 0x8D,
    0x3B, 0xDB, 0xAF, 0x9B, 0x66, 0xB3, 0x04, 0x4F, 0xF7, 0x9E, 0xA5, 0x21, 0xD2, 0x87, 0xED, 0x6A,
    0x16, 0xBF, 0x9F, 0x1D, 0x20, 0x35, 0x54, 0xB0, 0x33, 0xD1, 0xC0, 0xDD, 0xB5, 0xC9, 0x75, 0x49,
    0xF2, 0xB1, 0x5F, 0x6D, 0xA1, 0xEF, 0x17, 0xE3, 0x10, 0xB6, 0xD6, 0xCD, 0xCC, 0x91, 0x98, 0xC2,
    0x97, 0x81, 0x82, 0x6B, 0x45, 0x48, 0x2A, 0x00, 0x41, 0xAB, 0xDA, 0xA7, 0x63, 0xDF, 0x5C, 0x89,
    0xA6, 0xE6, 0x8E, 0x90, 0x05, 0x8C, 0x32, 0x3F, 0xD4, 0xA0, 0x8A, 0x7C, 0x43, 0x3A, 0x77, 0x5E,
    0xB9, 0xF5, 0x01, 0xD8, 0xEB, 0x34, 0x39, 0xA8, 0x06, 0xF4, 0xFA, 0x03, 0x56, 0x30, 0x58, 0xB8,
    0xA4, 0x2F, 0xBA, 0x83, 0x65, 0x5A, 0x2D, 0x57, 0x26, 0x40, 0x02, 0xE2, 0x24, 0x6E, 0x1C, 0x2B,
    0xD0, 0xAD, 0x4C, 0x67, 0x36, 0x55, 0xFE, 0x71, 0x51, 0xC4, 0x1B, 0x23, 0x37, 0x7B, 0xFC, 0xAE,
    0x78, 0x46, 0xDE, 0x2C, 0xB2, 0xD3, 0xCA, 0xDC, 0x0F, 0x6F, 0x0C, 0x70, 0x79, 0x29, 0xF8, 0x76,
    0x64, 0x0B, 0xA2, 0xF0, 0xFD, 0x4D, 0x31, 0x38, 0x72, 0x1E, 0xC8, 0x69, 0xE0, 0x5B, 0x7A, 0x4B,
    0x3C, 0xBC, 0x88, 0xE4, 0x73, 0x6C, 0xC7, 0xAC, 0xA3, 0x22, 0xE8, 0x25, 0x44, 0x13, 0x86, 0x15,
];

pub const GUILTY_CROWN_LOST_XMAS_TRAILER_SEED: u32 = 0x1BAA7EC5;

pub const GUILTY_CROWN_LOST_XMAS_TRAILER: [u8; 256] = [
    0xA3, 0x09, 0x65, 0xC0, 0x57, 0xCA, 0x99, 0x3F, 0x53, 0xAD, 0x8A, 0x70, 0x74, 0xA6, 0xCC, 0xAB,
    0x29, 0x6A, 0x86, 0x87, 0xEF, 0x96, 0x1C, 0xC2, 0xFD, 0x1B, 0x7D, 0x93, 0xD4, 0x4E, 0x8B, 0xF1,
    0xC4, 0xEC, 0xE5, 0x6D, 0xB9, 0xB7, 0x12, 0x22, 0x26, 0x31, 0x62, 0xA4, 0x3E, 0x54, 0x24, 0xA0,
    0xFB, 0x47, 0x7C, 0x6E, 0xC9, 0xBA, 0x2C, 0x45, 0xE9, 0xBB, 0x9C, 0xB4, 0x83, 0x4F, 0xFA, 0x55,
    0x27, 0x9B, 0x95, 0x90, 0x37, 0xA8, 0x63, 0xE8, 0x0F, 0x89, 0xDC, 0x92, 0xA9, 0xF4, 0x72, 0xC1,
    0x02, 0x13, 0x4C, 0x51, 0x0C, 0xDF, 0x08, 0x75, 0x0E, 0x5D, 0x36, 0x84, 0x59, 0x6F, 0xBD, 0x91,
    0x8E, 0xBC, 0x34, 0xFE, 0x32, 0xDD, 0x18, 0xB6, 0xA2, 0x9F, 0x2B, 0x06, 0x78, 0x7B, 0x19, 0x7F,
    0xDE, 0xC7, 0x7A, 0x64, 0x11, 0x88, 0x4A, 0x41, 0x20, 0x15, 0x81, 0x1E, 0xF6, 0x4B, 0x50, 0x98,
    0x67, 0x17, 0x42, 0x52, 0xD0, 0x33, 0xF8, 0x56, 0x46, 0xCD, 0x94, 0xC5, 0xCF, 0x43, 0xD1, 0xE1,
    0xDB, 0x23, 0x2D, 0x2E, 0x48, 0x05, 0xAA, 0x10, 0x03, 0xE7, 0xA1, 0xF3, 0xF5, 0xBE, 0xB2, 0xCE,
    0xF9, 0x58, 0xD8, 0xB8, 0xDA, 0x3B, 0xF2, 0xF7, 0xA7, 0x44, 0x9A, 0x1D, 0x5F, 0x3C, 0xEA, 0x0D,
    0xF0, 0xFF, 0xE6, 0xD7, 0x0B, 0xE4, 0x01, 0x39, 0xD9, 0xC6, 0x5B, 0x1F, 0xAE, 0x25, 0x8D, 0xEE,
    0x8F, 0xBF, 0x82, 0x35, 0xA5, 0xB1, 0xE3, 0x0A, 0x49, 0xD2, 0xB3, 0x66, 0x04, 0x07, 0x5A, 0x38,
    0x3D, 0x68, 0xC3, 0xED, 0x5C, 0x9E, 0xD6, 0x79, 0x5E, 0x8C, 0xC8, 0x2A, 0x77, 0x7E, 0x76, 0x21,
    0x97, 0x80, 0x30, 0x00, 0x6C, 0x1A, 0xE0, 0xAC, 0xB0, 0x3A, 0x71, 0x73, 0xFC, 0x61, 0xEB, 0xAF,
    0x40, 0x6B, 0x16, 0xE2, 0xD5, 0x69, 0x9D, 0x14, 0xD3, 0xCB, 0x2F, 0x4D, 0xB5, 0x60, 0x28, 0x85,
];

pub const DRAMATICAL_MURDER_SEED: u32 = 0xE6994C5F;

pub const DRAMATICAL_MURDER: [u8; 256] = [
    0xE4, 0x5A, 0x44, 0xE3, 0x33, 0x85, 0xA8, 0x8B, 0xDA, 0x61, 0x3C, 0xD8, 0x84, 0xDE, 0x7E, 0x52,
    0x88, 0x51, 0x78, 0xD1, 0xAD, 0x9E, 0x9C, 0xC1, 0x30, 0xF9, 0x56, 0x37, 0xCE, 0x18, 0x92, 0xE9,
    0x5E, 0x66, 0x42, 0x71, 0xB9, 0xC2, 0x0E, 0x1D, 0xFA, 0x50, 0xC0, 0x99, 0x29, 0xE5, 0x9F, 0xED,
    0xC3, 0xCD, 0x89, 0x95, 0x79, 0x4D, 0x17, 0x4E, 0x6A, 0x70, 0x31, 0x94, 0x36, 0x68, 0xB1, 0xA7,
    0x86, 0x74, 0x22, 0x1C, 0xBA, 0xD3, 0x23, 0x7A, 0x7F, 0xD7, 0xD0, 0x0D, 0xE6, 0xAE, 0x4B, 0x0C,
    0x46, 0xB3, 0x1F, 0x40, 0x0B, 0xF6, 0x10, 0x6D, 0x3A, 0x08, 0xDC, 0xEB, 0xCA, 0x2C, 0xC5, 0xDD,
    0x26, 0xD4, 0xA3, 0xEC, 0xAC, 0xD2, 0x2F, 0x97, 0x6F, 0xF2, 0x19, 0xC9, 0x06, 0xE1, 0x76, 0x2D,
    0x39, 0x9B, 0x65, 0xE8, 0x15, 0x07, 0xA5, 0x04, 0x49, 0x6B, 0x09, 0xE7, 0x5C, 0xD6, 0xC7, 0x00,
    0x90, 0xB8, 0x53, 0x3B, 0x3F, 0xFC, 0x13, 0x28, 0x55, 0xF3, 0x77, 0x72, 0x1E, 0x73, 0x80, 0x64,
    0x16, 0x60, 0x62, 0xF8, 0xF7, 0x8C, 0x83, 0x11, 0x25, 0x38, 0x7D, 0xA0, 0xFB, 0xA2, 0x81, 0x2B,
    0xB0, 0xE0, 0x41, 0xFE, 0x54, 0x0A, 0xFD, 0x9A, 0xDB, 0xF0, 0x20, 0xEA, 0x96, 0xAB, 0x8F, 0x1B,
    0x5D, 0xB5, 0x69, 0x8A, 0xCB, 0x8D, 0x2E, 0xC6, 0x0F, 0x58, 0xBF, 0x98, 0xA9, 0xFF, 0x59, 0x3D,
    0x75, 0xB2, 0xF5, 0x3E, 0x6E, 0xF1, 0x7B, 0xA4, 0xB6, 0x14, 0xA6, 0x48, 0x2A, 0xAA, 0x45, 0x4F,
    0xD5, 0x63, 0x93, 0x12, 0x7C, 0x34, 0x24, 0xBC, 0xEE, 0xD9, 0x05, 0xAF, 0x57, 0x91, 0x32, 0x4A,
    0xC8, 0xBD, 0x82, 0x27, 0x43, 0x67, 0x4C, 0xBE, 0xBB, 0x9D, 0x8E, 0xA1, 0x02, 0x6C, 0x5B, 0x35,
    0xC4, 0x01, 0xDF, 0x21, 0xE2, 0xB4, 0xF4, 0x87, 0xB7, 0x1A, 0xEF, 0xCF, 0x5F, 0xCC, 0x03, 0x47,
];

pub const TOTONO_SEED: u32 = 0x70B26B09;

pub const TOTONO: [u8; 256] = [
    0x1E, 0x38, 0xC3, 0xF4, 0xD6, 0x1B, 0x3C, 0x68, 0x9E, 0x96, 0x1A, 0x7F, 0xFA, 0xA9, 0x9C, 0x1D,
    0x0E, 0x89, 0x6D, 0x8F, 0xF2, 0x88, 0x5F, 0x7B, 0xEE, 0xE0, 0x94, 0x75, 0xCD, 0x92, 0x4F, 0xC8,
    0x66, 0x59, 0x33, 0x06, 0x3D, 0x58, 0xAF, 0x44, 0xD8, 0x5C, 0xA3, 0x72, 0x1C, 0xD9, 0x8C, 0xFB,
    0x95, 0x16, 0x73, 0x6B, 0x24, 0x19, 0xBE, 0xA2, 0xB1, 0x62, 0xA7, 0xE5, 0x48, 0x86, 0xA8, 0x09,
    0x43, 0xE4, 0x00, 0xCB, 0xED, 0x8E, 0x90, 0xE6, 0x27, 0xA5, 0x2A, 0xEB, 0x20, 0x11, 0xBD, 0x47,
    0x97, 0x4A, 0xFE, 0xB3, 0x8B, 0x77, 0x21, 0x0F, 0x49, 0x0B, 0xF3, 0x81, 0x3A, 0x40, 0xC7, 0x34,
    0x7D, 0x0A, 0x3E, 0xAB, 0x74, 0x76, 0x6A, 0xF1, 0x6F, 0xB4, 0x50, 0x7E, 0xAE, 0x3F, 0xBC, 0x0C,
    0x0D, 0x01, 0xEF, 0x53, 0xA0, 0x83, 0x37, 0xC5, 0xC6, 0x67, 0xC4, 0x03, 0x25, 0x5B, 0xD5, 0xBF,
    0xCF, 0x28, 0xB2, 0xC1, 0x17, 0xEA, 0x65, 0xB0, 0xEC, 0x82, 0xB6, 0x51, 0x61, 0x7C, 0x7A, 0x71,
    0xE9, 0x99, 0xBB, 0x45, 0xE2, 0x02, 0x79, 0xFC, 0x63, 0xDE, 0xAC, 0x85, 0x4C, 0xA1, 0xFD, 0xBA,
    0x22, 0x93, 0x9B, 0xA6, 0x04, 0x23, 0xD2, 0x55, 0x13, 0xB8, 0xC0, 0x2D, 0x8D, 0xE1, 0x08, 0xA4,
    0xE7, 0x2F, 0xC2, 0x4E, 0x39, 0x57, 0x78, 0x84, 0x8A, 0x4D, 0x1F, 0x12, 0x07, 0x6C, 0x15, 0x91,
    0x70, 0x60, 0xAA, 0x30, 0x5E, 0xCA, 0x9A, 0xDA, 0x6E, 0x31, 0x05, 0x26, 0x69, 0x56, 0x80, 0xDB,
    0xB9, 0xDF, 0xAD, 0xB5, 0xD1, 0x46, 0xD7, 0xCC, 0xD3, 0x2C, 0xF9, 0xFF, 0xF5, 0xF0, 0x87, 0x52,
    0xF6, 0xB7, 0x32, 0xD4, 0x36, 0x35, 0x2B, 0xF7, 0x41, 0x4B, 0x5D, 0x9F, 0xDD, 0x64, 0xF8, 0x5A,
    0xCE, 0x54, 0x14, 0x2E, 0xD0, 0xDC, 0xE8, 0x3B, 0x42, 0x9D, 0xE3, 0x18, 0x10, 0x98, 0x29, 0xC9,
];

pub const DRAMATICAL_MURDER_RE_CONNECT_SEED: u32 = 0x3AD07161;

pub const DRAMATICAL_MURDER_RE_CONNECT: [u8; 256] = [
    0xC5, 0x24, 0x3E, 0x0F, 0x0B, 0x49, 0xC8, 0x7F, 0x2E, 0xE2, 0x2C, 0x40, 0x3A, 0x93, 0x03, 0x70,
    0x23, 0xA3, 0xB1, 0x4A, 0x99, 0x21, 0x7A, 0xF1, 0x6F, 0x71, 0x63, 0x0E, 0x07, 0x27, 0xEB, 0xC0,
    0x6B, 0x90, 0xEC, 0xF5, 0xD1, 0x9E, 0x15, 0xD5, 0xBD, 0xC1, 0x78, 0xAE, 0x04, 0x2B, 0x41, 0xCD,
    0x79, 0x9A, 0x95, 0x84, 0xFF, 0x9F, 0x60, 0x09, 0x38, 0xA2, 0x31, 0x11, 0x80, 0xFD, 0x36, 0xE6,
    0xB0, 0x9C, 0xAB, 0x54, 0xE8, 0x81, 0x75, 0xA8, 0x8F, 0xFC, 0xD4, 0x01, 0x44, 0x87, 0x5B, 0x34,
    0x1A, 0xF4, 0x26, 0x48, 0xA4, 0x3F, 0x5A, 0x00, 0xC3, 0xEA, 0x68, 0xB6, 0xF7, 0x7D, 0x14, 0xCA,
    0x18, 0x4C, 0xCB, 0xAC, 0xF3, 0x7E, 0xED, 0xEF, 0x62, 0x53, 0x72, 0x32, 0xD0, 0x1B, 0x35, 0x97,
    0x4F, 0x8E, 0xE3, 0xE1, 0x7B, 0x8C, 0x76, 0x3B, 0xF9, 0x2A, 0x3D, 0x10, 0x02, 0x86, 0x29, 0x61,
    0xC4, 0xC6, 0x43, 0x73, 0x9B, 0x58, 0x5F, 0xF0, 0xDC, 0xCE, 0x4E, 0x06, 0xD3, 0xFE, 0xF6, 0x05,
    0x1E, 0x5D, 0x5C, 0xE7, 0x16, 0xCC, 0xDF, 0x98, 0xA6, 0x20, 0x5E, 0xBF, 0x51, 0xFA, 0xD2, 0x50,
    0xB7, 0x69, 0x47, 0xE4, 0x12, 0xB8, 0xD6, 0x8A, 0xE5, 0x6D, 0xAD, 0x37, 0x25, 0x66, 0x46, 0x56,
    0xBE, 0x8B, 0x74, 0x57, 0x83, 0x19, 0x4D, 0xB3, 0x0C, 0xB4, 0x85, 0xF8, 0xA5, 0xB2, 0xAF, 0x28,
    0x8D, 0xD9, 0x17, 0xE0, 0xA7, 0xB5, 0xAA, 0x2F, 0xDD, 0x4B, 0x92, 0x6A, 0x52, 0xEE, 0xD7, 0xCF,
    0x67, 0xBC, 0xDB, 0xBB, 0x22, 0xFB, 0x2D, 0x9D, 0xDA, 0xBA, 0x42, 0xC2, 0x77, 0x59, 0x65, 0x3C,
    0x1C, 0x39, 0x82, 0xA1, 0x88, 0x91, 0x0D, 0xC7, 0xDE, 0x96, 0x33, 0xA0, 0x1D, 0xC9, 0x89, 0x1F,
    0x55, 0x30, 0xA9, 0xD8, 0xB9, 0xF2, 0x08, 0x64, 0x7C, 0x45, 0x0A, 0x13, 0xE9, 0x94, 0x6C, 0x6E,
];

pub const MURAMASA_SS_SEED: u32 = 0x42E6C268;

pub const MURAMASA_SS: [u8; 256] = [
    0x3B, 0xDE, 0x03, 0xD7, 0x9E, 0xF9, 0xD9, 0xC3, 0x5D, 0xF8, 0x5A, 0xE4, 0x16, 0x39, 0x14, 0x10,
    0xDA, 0xE7, 0x8A, 0x7C, 0x9C, 0xC1, 0x50, 0xD3, 0x4D, 0xF0, 0x9A, 0x81, 0x63, 0xB2, 0x38, 0x42,
    0xE5, 0xEE, 0xA9, 0xE2, 0x73, 0x71, 0x98, 0x72, 0x36, 0xAD, 0x31, 0x0C, 0x53, 0x21, 0xDC, 0x97,
    0xA1, 0x7E, 0x12, 0xD4, 0x49, 0x66, 0x00, 0x0B, 0x02, 0xAA, 0x3C, 0x40, 0xF4, 0xCB, 0x44, 0x52,
    0x78, 0xA7, 0xFF, 0x27, 0x7A, 0x26, 0xA2, 0x5E, 0xC0, 0x37, 0xEC, 0x5F, 0xD6, 0xD8, 0x4A, 0xCA,
    0x2E, 0x19, 0x75, 0x4B, 0x85, 0x59, 0xB0, 0xAB, 0xAE, 0x13, 0x1E, 0x15, 0xE0, 0x74, 0x90, 0x23,
    0x68, 0xBF, 0x28, 0x56, 0xFA, 0x8C, 0xCF, 0xFD, 0xA0, 0x06, 0x8E, 0x47, 0x1D, 0x3E, 0x2B, 0xA3,
    0x46, 0xFE, 0xE6, 0xE9, 0x6E, 0xBA, 0x9B, 0x7D, 0x96, 0x32, 0x99, 0x2F, 0xF1, 0xEF, 0x22, 0x18,
    0xBC, 0xC2, 0x0E, 0x69, 0xB5, 0xD5, 0x0D, 0x07, 0x51, 0x3A, 0x9F, 0xE1, 0x1C, 0xF2, 0x61, 0xB3,
    0x29, 0x17, 0x79, 0x2D, 0x09, 0x3F, 0x6D, 0x60, 0x7F, 0x45, 0xB9, 0x24, 0x6C, 0xBE, 0xCE, 0x2C,
    0x7B, 0xC7, 0x05, 0xEA, 0x91, 0x41, 0x25, 0x20, 0xCD, 0xAC, 0xE3, 0x33, 0x8F, 0x08, 0xFB, 0x4F,
    0x4E, 0xC8, 0xFC, 0x84, 0xD0, 0xDF, 0xE8, 0xC9, 0x9D, 0xF3, 0xF6, 0x1B, 0x58, 0x92, 0x82, 0x34,
    0xB1, 0x67, 0x1F, 0xA4, 0x83, 0xB7, 0x30, 0xF5, 0x55, 0x62, 0xCC, 0x4C, 0xEB, 0xDD, 0x5B, 0x86,
    0x6B, 0x0A, 0xAF, 0xD1, 0x94, 0x0F, 0x04, 0x80, 0x3D, 0xC5, 0xED, 0xBB, 0x93, 0x76, 0x64, 0x43,
    0xD2, 0xC6, 0x01, 0xB8, 0xA5, 0x77, 0xF7, 0x54, 0xC4, 0x11, 0xBD, 0x87, 0x57, 0x48, 0x89, 0x95,
    0xA6, 0x6F, 0x8B, 0xDB, 0xB6, 0x70, 0x2A, 0xA8, 0x88, 0x5C, 0x6A, 0x65, 0xB4, 0x35, 0x8D, 0x1A,
];

} // verus!
