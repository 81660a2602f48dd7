//! The lookup tables of the table-driven updates, and the proof of what
//! they hold.
//!
//! Table 0 is the classical byte table of CRC-32: entry `i` is the register
//! that the byte `i` turns into over eight bit steps.  Each further table
//! is the one before it advanced by another zero byte, so that sixteen
//! lookups, one per table, stand for sixteen dependent byte steps.
//!
//! The proof goes table by table.  For each one the bit-vector solver
//! evaluates the model on the 256 entries of the table before it and finds
//! the 256 entries of this one; the rest is bookkeeping.

use vstd::prelude::*;
use crate::model::{shift_byte, shift_bytes};

verus! {

/// `CRC32_TABLE[k][i]` is the register `i` advanced by `k + 1` zero bytes
/// (see [`lemma_table_entry`]).
pub const CRC32_TABLE: [[u32; 256]; 16] = [
    [
        0x00000000, 0x77073096, 0xee0e612c, 0x990951ba, 0x076dc419, 0x706af48f, 0xe963a535, 0x9e6495a3,
        0x0edb8832, 0x79dcb8a4, 0xe0d5e91e, 0x97d2d988, 0x09b64c2b, 0x7eb17cbd, 0xe7b82d07, 0x90bf1d91,
        0x1db71064, 0x6ab020f2, 0xf3b97148, 0x84be41de, 0x1adad47d, 0x6ddde4eb, 0xf4d4b551, 0x83d385c7,
        0x136c9856, 0x646ba8c0, 0xfd62f97a, 0x8a65c9ec, 0x14015c4f, 0x63066cd9, 0xfa0f3d63, 0x8d080df5,
        0x3b6e20c8, 0x4c69105e, 0xd56041e4, 0xa2677172, 0x3c03e4d1, 0x4b04d447, 0xd20d85fd, 0xa50ab56b,
        0x35b5a8fa, 0x42b2986c, 0xdbbbc9d6, 0xacbcf940, 0x32d86ce3, 0x45df5c75, 0xdcd60dcf, 0xabd13d59,
        0x26d930ac, 0x51de003a, 0xc8d75180, 0xbfd06116, 0x21b4f4b5, 0x56b3c423, 0xcfba9599, 0xb8bda50f,
        0x2802b89e, 0x5f058808, 0xc60cd9b2, 0xb10be924, 0x2f6f7c87, 0x58684c11, 0xc1611dab, 0xb6662d3d,
        0x76dc4190, 0x01db7106, 0x98d220bc, 0xefd5102a, 0x71b18589, 0x06b6b51f, 0x9fbfe4a5, 0xe8b8d433,
        0x7807c9a2, 0x0f00f934, 0x9609a88e, 0xe10e9818, 0x7f6a0dbb, 0x086d3d2d, 0x91646c97, 0xe6635c01,
        0x6b6b51f4, 0x1c6c6162, 0x856530d8, 0xf262004e, 0x6c0695ed, 0x1b01a57b, 0x8208f4c1, 0xf50fc457,
        0x65b0d9c6, 0x12b7e950, 0x8bbeb8ea, 0xfcb9887c, 0x62dd1ddf, 0x15da2d49, 0x8cd37cf3, 0xfbd44c65,
        0x4db26158, 0x3ab551ce, 0xa3bc0074, 0xd4bb30e2, 0x4adfa541, 0x3dd895d7, 0xa4d1c46d, 0xd3d6f4fb,
        0x4369e96a, 0x346ed9fc, 0xad678846, 0xda60b8d0, 0x44042d73, 0x33031de5, 0xaa0a4c5f, 0xdd0d7cc9,
        0x5005713c, 0x270241aa, 0xbe0b1010, 0xc90c2086, 0x5768b525, 0x206f85b3, 0xb966d409, 0xce61e49f,
        0x5edef90e, 0x29d9c998, 0xb0d09822, 0xc7d7a8b4, 0x59b33d17, 0x2eb40d81, 0xb7bd5c3b, 0xc0ba6cad,
        0xedb88320, 0x9abfb3b6, 0x03b6e20c, 0x74b1d29a, 0xead54739, 0x9dd277af, 0x04db2615, 0x73dc1683,
        0xe3630b12, 0x94643b84, 0x0d6d6a3e, 0x7a6a5aa8, 0xe40ecf0b, 0x9309ff9d, 0x0a00ae27, 0x7d079eb1,
        0xf00f9344, 0x8708a3d2, 0x1e01f268, 0x6906c2fe, 0xf762575d, 0x806567cb, 0x196c3671, 0x6e6b06e7,
        0xfed41b76, 0x89d32be0, 0x10da7a5a, 0x67dd4acc, 0xf9b9df6f, 0x8ebeeff9, 0x17b7be43, 0x60b08ed5,
        0xd6d6a3e8, 0xa1d1937e, 0x38d8c2c4, 0x4fdff252, 0xd1bb67f1, 0xa6bc5767, 0x3fb506dd, 0x48b2364b,
        0xd80d2bda, 0xaf0a1b4c, 0x36034af6, 0x41047a60, 0xdf60efc3, 0xa867df55, 0x316e8eef, 0x4669be79,
        0xcb61b38c, 0xbc66831a, 0x256fd2a0, 0x5268e236, 0xcc0c7795, 0xbb0b4703, 0x220216b9, 0x5505262f,
        0xc5ba3bbe, 0xb2bd0b28, 0x2bb45a92, 0x5cb36a04, 0xc2d7ffa7, 0xb5d0cf31, 0x2cd99e8b, 0x5bdeae1d,
        0x9b64c2b0, 0xec63f226, 0x756aa39c, 0x026d930a, 0x9c0906a9, 0xeb0e363f, 0x72076785, 0x05005713,
        0x95bf4a82, 0xe2b87a14, 0x7bb12bae, 0x0cb61b38, 0x92d28e9b, 0xe5d5be0d, 0x7cdcefb7, 0x0bdbdf21,
        0x86d3d2d4, 0xf1d4e242, 0x68ddb3f8, 0x1fda836e, 0x81be16cd, 0xf6b9265b, 0x6fb077e1, 0x18b74777,
        0x88085ae6, 0xff0f6a70, 0x66063bca, 0x11010b5c, 0x8f659eff, 0xf862ae69, 0x616bffd3, 0x166ccf45,
        0xa00ae278, 0xd70dd2ee, 0x4e048354, 0x3903b3c2, 0xa7672661, 0xd06016f7, 0x4969474d, 0x3e6e77db,
        0xaed16a4a, 0xd9d65adc, 0x40df0b66, 0x37d83bf0, 0xa9bcae53, 0xdebb9ec5, 0x47b2cf7f, 0x30b5ffe9,
        0xbdbdf21c, 0xcabac28a, 0x53b39330, 0x24b4a3a6, 0xbad03605, 0xcdd70693, 0x54de5729, 0x23d967bf,
        0xb3667a2e, 0xc4614ab8, 0x5d681b02, 0x2a6f2b94, 0xb40bbe37, 0xc30c8ea1, 0x5a05df1b, 0x2d02ef8d,
    ],
    [
        0x00000000, 0x191b3141, 0x32366282, 0x2b2d53c3, 0x646cc504, 0x7d77f445, 0x565aa786, 0x4f4196c7,
        0xc8d98a08, 0xd1c2bb49, 0xfaefe88a, 0xe3f4d9cb, 0xacb54f0c, 0xb5ae7e4d, 0x9e832d8e, 0x87981ccf,
        0x4ac21251, 0x53d92310, 0x78f470d3, 0x61ef4192, 0x2eaed755, 0x37b5e614, 0x1c98b5d7, 0x05838496,
        0x821b9859, 0x9b00a918, 0xb02dfadb, 0xa936cb9a, 0xe6775d5d, 0xff6c6c1c, 0xd4413fdf, 0xcd5a0e9e,
        0x958424a2, 0x8c9f15e3, 0xa7b24620, 0xbea97761, 0xf1e8e1a6, 0xe8f3d0e7, 0xc3de8324, 0xdac5b265,
        0x5d5daeaa, 0x44469feb, 0x6f6bcc28, 0x7670fd69, 0x39316bae, 0x202a5aef, 0x0b07092c, 0x121c386d,
        0xdf4636f3, 0xc65d07b2, 0xed705471, 0xf46b6530, 0xbb2af3f7, 0xa231c2b6, 0x891c9175, 0x9007a034,
        0x179fbcfb, 0x0e848dba, 0x25a9de79, 0x3cb2ef38, 0x73f379ff, 0x6ae848be, 0x41c51b7d, 0x58de2a3c,
        0xf0794f05, 0xe9627e44, 0xc24f2d87, 0xdb541cc6, 0x94158a01, 0x8d0ebb40, 0xa623e883, 0xbf38d9c2,
        0x38a0c50d, 0x21bbf44c, 0x0a96a78f, 0x138d96ce, 0x5ccc0009, 0x45d73148, 0x6efa628b, 0x77e153ca,
        0xbabb5d54, 0xa3a06c15, 0x888d3fd6, 0x91960e97, 0xded79850, 0xc7cca911, 0xece1fad2, 0xf5facb93,
        0x7262d75c, 0x6b79e61d, 0x4054b5de, 0x594f849f, 0x160e1258, 0x0f152319, 0x243870da, 0x3d23419b,
        0x65fd6ba7, 0x7ce65ae6, 0x57cb0925, 0x4ed03864, 0x0191aea3, 0x188a9fe2, 0x33a7cc21, 0x2abcfd60,
        0xad24e1af, 0xb43fd0ee, 0x9f12832d, 0x8609b26c, 0xc94824ab, 0xd05315ea, 0xfb7e4629, 0xe2657768,
        0x2f3f79f6, 0x362448b7, 0x1d091b74, 0x04122a35, 0x4b53bcf2, 0x52488db3, 0x7965de70, 0x607eef31,
        0xe7e6f3fe, 0xfefdc2bf, 0xd5d0917c, 0xcccba03d, 0x838a36fa, 0x9a9107bb, 0xb1bc5478, 0xa8a76539,
        0x3b83984b, 0x2298a90a, 0x09b5fac9, 0x10aecb88, 0x5fef5d4f, 0x46f46c0e, 0x6dd93fcd, 0x74c20e8c,
        0xf35a1243, 0xea412302, 0xc16c70c1, 0xd8774180, 0x9736d747, 0x8e2de606, 0xa500b5c5, 0xbc1b8484,
        0x71418a1a, 0x685abb5b, 0x4377e898, 0x5a6cd9d9, 0x152d4f1e, 0x0c367e5f, 0x271b2d9c, 0x3e001cdd,
        0xb9980012, 0xa0833153, 0x8bae6290, 0x92b553d1, 0xddf4c516, 0xc4eff457, 0xefc2a794, 0xf6d996d5,
        0xae07bce9, 0xb71c8da8, 0x9c31de6b, 0x852aef2a, 0xca6b79ed, 0xd37048ac, 0xf85d1b6f, 0xe1462a2e,
        0x66de36e1, 0x7fc507a0, 0x54e85463, 0x4df36522, 0x02b2f3e5, 0x1ba9c2a4, 0x30849167, 0x299fa026,
        0xe4c5aeb8, 0xfdde9ff9, 0xd6f3cc3a, 0xcfe8fd7b, 0x80a96bbc, 0x99b25afd, 0xb29f093e, 0xab84387f,
        0x2c1c24b0, 0x350715f1, 0x1e2a4632, 0x07317773, 0x4870e1b4, 0x516bd0f5, 0x7a468336, 0x635db277,
        0xcbfad74e, 0xd2e1e60f, 0xf9ccb5cc, 0xe0d7848d, 0xaf96124a, 0xb68d230b, 0x9da070c8, 0x84bb4189,
        0x03235d46, 0x1a386c07, 0x31153fc4, 0x280e0e85, 0x674f9842, 0x7e54a903, 0x5579fac0, 0x4c62cb81,
        0x8138c51f, 0x9823f45e, 0xb30ea79d, 0xaa1596dc, 0xe554001b, 0xfc4f315a, 0xd7626299, 0xce7953d8,
        0x49e14f17, 0x50fa7e56, 0x7bd72d95, 0x62cc1cd4, 0x2d8d8a13, 0x3496bb52, 0x1fbbe891, 0x06a0d9d0,
        0x5e7ef3ec, 0x4765c2ad, 0x6c48916e, 0x7553a02f, 0x3a1236e8, 0x230907a9, 0x0824546a, 0x113f652b,
        0x96a779e4, 0x8fbc48a5, 0xa4911b66, 0xbd8a2a27, 0xf2cbbce0, 0xebd08da1, 0xc0fdde62, 0xd9e6ef23,
        0x14bce1bd, 0x0da7d0fc, 0x268a833f, 0x3f91b27e, 0x70d024b9, 0x69cb15f8, 0x42e6463b, 0x5bfd777a,
        0xdc656bb5, 0xc57e5af4, 0xee530937, 0xf7483876, 0xb809aeb1, 0xa1129ff0, 0x8a3fcc33, 0x9324fd72,
    ],
    [
        0x00000000, 0x01c26a37, 0x0384d46e, 0x0246be59, 0x0709a8dc, 0x06cbc2eb, 0x048d7cb2, 0x054f1685,
        0x0e1351b8, 0x0fd13b8f, 0x0d9785d6, 0x0c55efe1, 0x091af964, 0x08d89353, 0x0a9e2d0a, 0x0b5c473d,
        0x1c26a370, 0x1de4c947, 0x1fa2771e, 0x1e601d29, 0x1b2f0bac, 0x1aed619b, 0x18abdfc2, 0x1969b5f5,
        0x1235f2c8, 0x13f798ff, 0x11b126a6, 0x10734c91, 0x153c5a14, 0x14fe3023, 0x16b88e7a, 0x177ae44d,
        0x384d46e0, 0x398f2cd7, 0x3bc9928e, 0x3a0bf8b9, 0x3f44ee3c, 0x3e86840b, 0x3cc03a52, 0x3d025065,
        0x365e1758, 0x379c7d6f, 0x35dac336, 0x3418a901, 0x3157bf84, 0x3095d5b3, 0x32d36bea, 0x331101dd,
        0x246be590, 0x25a98fa7, 0x27ef31fe, 0x262d5bc9, 0x23624d4c, 0x22a0277b, 0x20e69922, 0x2124f315,
        0x2a78b428, 0x2bbade1f, 0x29fc6046, 0x283e0a71, 0x2d711cf4, 0x2cb376c3, 0x2ef5c89a, 0x2f37a2ad,
        0x709a8dc0, 0x7158e7f7, 0x731e59ae, 0x72dc3399, 0x7793251c, 0x76514f2b, 0x7417f172, 0x75d59b45,
        0x7e89dc78, 0x7f4bb64f, 0x7d0d0816, 0x7ccf6221, 0x798074a4, 0x78421e93, 0x7a04a0ca, 0x7bc6cafd,
        0x6cbc2eb0, 0x6d7e4487, 0x6f38fade, 0x6efa90e9, 0x6bb5866c, 0x6a77ec5b, 0x68315202, 0x69f33835,
        0x62af7f08, 0x636d153f, 0x612bab66, 0x60e9c151, 0x65a6d7d4, 0x6464bde3, 0x662203ba, 0x67e0698d,
        0x48d7cb20, 0x4915a117, 0x4b531f4e, 0x4a917579, 0x4fde63fc, 0x4e1c09cb, 0x4c5ab792, 0x4d98dda5,
        0x46c49a98, 0x4706f0af, 0x45404ef6, 0x448224c1, 0x41cd3244, 0x400f5873, 0x4249e62a, 0x438b8c1d,
        0x54f16850, 0x55330267, 0x5775bc3e, 0x56b7d609, 0x53f8c08c, 0x523aaabb, 0x507c14e2, 0x51be7ed5,
        0x5ae239e8, 0x5b2053df, 0x5966ed86, 0x58a487b1, 0x5deb9134, 0x5c29fb03, 0x5e6f455a, 0x5fad2f6d,
        0xe1351b80, 0xe0f771b7, 0xe2b1cfee, 0xe373a5d9, 0xe63cb35c, 0xe7fed96b, 0xe5b86732, 0xe47a0d05,
        0xef264a38, 0xeee4200f, 0xeca29e56, 0xed60f461, 0xe82fe2e4, 0xe9ed88d3, 0xebab368a, 0xea695cbd,
        0xfd13b8f0, 0xfcd1d2c7, 0xfe976c9e, 0xff5506a9, 0xfa1a102c, 0xfbd87a1b, 0xf99ec442, 0xf85cae75,
        0xf300e948, 0xf2c2837f, 0xf0843d26, 0xf1465711, 0xf4094194, 0xf5cb2ba3, 0xf78d95fa, 0xf64fffcd,
        0xd9785d60, 0xd8ba3757, 0xdafc890e, 0xdb3ee339, 0xde71f5bc, 0xdfb39f8b, 0xddf521d2, 0xdc374be5,
        0xd76b0cd8, 0xd6a966ef, 0xd4efd8b6, 0xd52db281, 0xd062a404, 0xd1a0ce33, 0xd3e6706a, 0xd2241a5d,
        0xc55efe10, 0xc49c9427, 0xc6da2a7e, 0xc7184049, 0xc25756cc, 0xc3953cfb, 0xc1d382a2, 0xc011e895,
        0xcb4dafa8, 0xca8fc59f, 0xc8c97bc6, 0xc90b11f1, 0xcc440774, 0xcd866d43, 0xcfc0d31a, 0xce02b92d,
        0x91af9640, 0x906dfc77, 0x922b422e, 0x93e92819, 0x96a63e9c, 0x976454ab, 0x9522eaf2, 0x94e080c5,
        0x9fbcc7f8, 0x9e7eadcf, 0x9c381396, 0x9dfa79a1, 0x98b56f24, 0x99770513, 0x9b31bb4a, 0x9af3d17d,
        0x8d893530, 0x8c4b5f07, 0x8e0de15e, 0x8fcf8b69, 0x8a809dec, 0x8b42f7db, 0x89044982, 0x88c623b5,
        0x839a6488, 0x82580ebf, 0x801eb0e6, 0x81dcdad1, 0x8493cc54, 0x8551a663, 0x8717183a, 0x86d5720d,
        0xa9e2d0a0, 0xa820ba97, 0xaa6604ce, 0xaba46ef9, 0xaeeb787c, 0xaf29124b, 0xad6fac12, 0xacadc625,
        0xa7f18118, 0xa633eb2f, 0xa4755576, 0xa5b73f41, 0xa0f829c4, 0xa13a43f3, 0xa37cfdaa, 0xa2be979d,
        0xb5c473d0, 0xb40619e7, 0xb640a7be, 0xb782cd89, 0xb2cddb0c, 0xb30fb13b, 0xb1490f62, 0xb08b6555,
        0xbbd72268, 0xba15485f, 0xb853f606, 0xb9919c31, 0xbcde8ab4, 0xbd1ce083, 0xbf5a5eda, 0xbe9834ed,
    ],
    [
        0x00000000, 0xb8bc6765, 0xaa09c88b, 0x12b5afee, 0x8f629757, 0x37def032, 0x256b5fdc, 0x9dd738b9,
        0xc5b428ef, 0x7d084f8a, 0x6fbde064, 0xd7018701, 0x4ad6bfb8, 0xf26ad8dd, 0xe0df7733, 0x58631056,
        0x5019579f, 0xe8a530fa, 0xfa109f14, 0x42acf871, 0xdf7bc0c8, 0x67c7a7ad, 0x75720843, 0xcdce6f26,
        0x95ad7f70, 0x2d111815, 0x3fa4b7fb, 0x8718d09e, 0x1acfe827, 0xa2738f42, 0xb0c620ac, 0x087a47c9,
        0xa032af3e, 0x188ec85b, 0x0a3b67b5, 0xb28700d0, 0x2f503869, 0x97ec5f0c, 0x8559f0e2, 0x3de59787,
        0x658687d1, 0xdd3ae0b4, 0xcf8f4f5a, 0x7733283f, 0xeae41086, 0x525877e3, 0x40edd80d, 0xf851bf68,
        0xf02bf8a1, 0x48979fc4, 0x5a22302a, 0xe29e574f, 0x7f496ff6, 0xc7f50893, 0xd540a77d, 0x6dfcc018,
        0x359fd04e, 0x8d23b72b, 0x9f9618c5, 0x272a7fa0, 0xbafd4719, 0x0241207c, 0x10f48f92, 0xa848e8f7,
        0x9b14583d, 0x23a83f58, 0x311d90b6, 0x89a1f7d3, 0x1476cf6a, 0xaccaa80f, 0xbe7f07e1, 0x06c36084,
        0x5ea070d2, 0xe61c17b7, 0xf4a9b859, 0x4c15df3c, 0xd1c2e785, 0x697e80e0, 0x7bcb2f0e, 0xc377486b,
        0xcb0d0fa2, 0x73b168c7, 0x6104c729, 0xd9b8a04c, 0x446f98f5, 0xfcd3ff90, 0xee66507e, 0x56da371b,
        0x0eb9274d, 0xb6054028, 0xa4b0efc6, 0x1c0c88a3, 0x81dbb01a, 0x3967d77f, 0x2bd27891, 0x936e1ff4,
        0x3b26f703, 0x839a9066, 0x912f3f88, 0x299358ed, 0xb4446054, 0x0cf80731, 0x1e4da8df, 0xa6f1cfba,
        0xfe92dfec, 0x462eb889, 0x549b1767, 0xec277002, 0x71f048bb, 0xc94c2fde, 0xdbf98030, 0x6345e755,
        0x6b3fa09c, 0xd383c7f9, 0xc1366817, 0x798a0f72, 0xe45d37cb, 0x5ce150ae, 0x4e54ff40, 0xf6e89825,
        0xae8b8873, 0x1637ef16, 0x048240f8, 0xbc3e279d, 0x21e91f24, 0x99557841, 0x8be0d7af, 0x335cb0ca,
        0xed59b63b, 0x55e5d15e, 0x47507eb0, 0xffec19d5, 0x623b216c, 0xda874609, 0xc832e9e7, 0x708e8e82,
        0x28ed9ed4, 0x9051f9b1, 0x82e4565f, 0x3a58313a, 0xa78f0983, 0x1f336ee6, 0x0d86c108, 0xb53aa66d,
        0xbd40e1a4, 0x05fc86c1, 0x1749292f, 0xaff54e4a, 0x322276f3, 0x8a9e1196, 0x982bbe78, 0x2097d91d,
        0x78f4c94b, 0xc048ae2e, 0xd2fd01c0, 0x6a4166a5, 0xf7965e1c, 0x4f2a3979, 0x5d9f9697, 0xe523f1f2,
        0x4d6b1905, 0xf5d77e60, 0xe762d18e, 0x5fdeb6eb, 0xc2098e52, 0x7ab5e937, 0x680046d9, 0xd0bc21bc,
        0x88df31ea, 0x3063568f, 0x22d6f961, 0x9a6a9e04, 0x07bda6bd, 0xbf01c1d8, 0xadb46e36, 0x15080953,
        0x1d724e9a, 0xa5ce29ff, 0xb77b8611, 0x0fc7e174, 0x9210d9cd, 0x2aacbea8, 0x38191146, 0x80a57623,
        0xd8c66675, 0x607a0110, 0x72cfaefe, 0xca73c99b, 0x57a4f122, 0xef189647, 0xfdad39a9, 0x45115ecc,
        0x764dee06, 0xcef18963, 0xdc44268d, 0x64f841e8, 0xf92f7951, 0x41931e34, 0x5326b1da, 0xeb9ad6bf,
        0xb3f9c6e9, 0x0b45a18c, 0x19f00e62, 0xa14c6907, 0x3c9b51be, 0x842736db, 0x96929935, 0x2e2efe50,
        0x2654b999, 0x9ee8defc, 0x8c5d7112, 0x34e11677, 0xa9362ece, 0x118a49ab, 0x033fe645, 0xbb838120,
        0xe3e09176, 0x5b5cf613, 0x49e959fd, 0xf1553e98, 0x6c820621, 0xd43e6144, 0xc68bceaa, 0x7e37a9cf,
        0xd67f4138, 0x6ec3265d, 0x7c7689b3, 0xc4caeed6, 0x591dd66f, 0xe1a1b10a, 0xf3141ee4, 0x4ba87981,
        0x13cb69d7, 0xab770eb2, 0xb9c2a15c, 0x017ec639, 0x9ca9fe80, 0x241599e5, 0x36a0360b, 0x8e1c516e,
        0x866616a7, 0x3eda71c2, 0x2c6fde2c, 0x94d3b949, 0x090481f0, 0xb1b8e695, 0xa30d497b, 0x1bb12e1e,
        0x43d23e48, 0xfb6e592d, 0xe9dbf6c3, 0x516791a6, 0xccb0a91f, 0x740cce7a, 0x66b96194, 0xde0506f1,
    ],
    [
        0x00000000, 0x3d6029b0, 0x7ac05360, 0x47a07ad0, 0xf580a6c0, 0xc8e08f70, 0x8f40f5a0, 0xb220dc10,
        0x30704bc1, 0x0d106271, 0x4ab018a1, 0x77d03111, 0xc5f0ed01, 0xf890c4b1, 0xbf30be61, 0x825097d1,
        0x60e09782, 0x5d80be32, 0x1a20c4e2, 0x2740ed52, 0x95603142, 0xa80018f2, 0xefa06222, 0xd2c04b92,
        0x5090dc43, 0x6df0f5f3, 0x2a508f23, 0x1730a693, 0xa5107a83, 0x98705333, 0xdfd029e3, 0xe2b00053,
        0xc1c12f04, 0xfca106b4, 0xbb017c64, 0x866155d4, 0x344189c4, 0x0921a074, 0x4e81daa4, 0x73e1f314,
        0xf1b164c5, 0xccd14d75, 0x8b7137a5, 0xb6111e15, 0x0431c205, 0x3951ebb5, 0x7ef19165, 0x4391b8d5,
        0xa121b886, 0x9c419136, 0xdbe1ebe6, 0xe681c256, 0x54a11e46, 0x69c137f6, 0x2e614d26, 0x13016496,
        0x9151f347, 0xac31daf7, 0xeb91a027, 0xd6f18997, 0x64d15587, 0x59b17c37, 0x1e1106e7, 0x23712f57,
        0x58f35849, 0x659371f9, 0x22330b29, 0x1f532299, 0xad73fe89, 0x9013d739, 0xd7b3ade9, 0xead38459,
        0x68831388, 0x55e33a38, 0x124340e8, 0x2f236958, 0x9d03b548, 0xa0639cf8, 0xe7c3e628, 0xdaa3cf98,
        0x3813cfcb, 0x0573e67b, 0x42d39cab, 0x7fb3b51b, 0xcd93690b, 0xf0f340bb, 0xb7533a6b, 0x8a3313db,
        0x0863840a, 0x3503adba, 0x72a3d76a, 0x4fc3feda, 0xfde322ca, 0xc0830b7a, 0x872371aa, 0xba43581a,
        0x9932774d, 0xa4525efd, 0xe3f2242d, 0xde920d9d, 0x6cb2d18d, 0x51d2f83d, 0x167282ed, 0x2b12ab5d,
        0xa9423c8c, 0x9422153c, 0xd3826fec, 0xeee2465c, 0x5cc29a4c, 0x61a2b3fc, 0x2602c92c, 0x1b62e09c,
        0xf9d2e0cf, 0xc4b2c97f, 0x8312b3af, 0xbe729a1f, 0x0c52460f, 0x31326fbf, 0x7692156f, 0x4bf23cdf,
        0xc9a2ab0e, 0xf4c282be, 0xb362f86e, 0x8e02d1de, 0x3c220dce, 0x0142247e, 0x46e25eae, 0x7b82771e,
        0xb1e6b092, 0x8c869922, 0xcb26e3f2, 0xf646ca42, 0x44661652, 0x79063fe2, 0x3ea64532, 0x03c66c82,
        0x8196fb53, 0xbcf6d2e3, 0xfb56a833, 0xc6368183, 0x74165d93, 0x49767423, 0x0ed60ef3, 0x33b62743,
        0xd1062710, 0xec660ea0, 0xabc67470, 0x96a65dc0, 0x248681d0, 0x19e6a860, 0x5e46d2b0, 0x6326fb00,
        0xe1766cd1, 0xdc164561, 0x9bb63fb1, 0xa6d61601, 0x14f6ca11, 0x2996e3a1, 0x6e369971, 0x5356b0c1,
        0x70279f96, 0x4d47b626, 0x0ae7ccf6, 0x3787e546, 0x85a73956, 0xb8c710e6, 0xff676a36, 0xc2074386,
        0x4057d457, 0x7d37fde7, 0x3a978737, 0x07f7ae87, 0xb5d77297, 0x88b75b27, 0xcf1721f7, 0xf2770847,
        0x10c70814, 0x2da721a4, 0x6a075b74, 0x576772c4, 0xe547aed4, 0xd8278764, 0x9f87fdb4, 0xa2e7d404,
        0x20b743d5, 0x1dd76a65, 0x5a7710b5, 0x67173905, 0xd537e515, 0xe857cca5, 0xaff7b675, 0x92979fc5,
        0xe915e8db, 0xd475c16b, 0x93d5bbbb, 0xaeb5920b, 0x1c954e1b, 0x21f567ab, 0x66551d7b, 0x5b3534cb,
        0xd965a31a, 0xe4058aaa, 0xa3a5f07a, 0x9ec5d9ca, 0x2ce505da, 0x11852c6a, 0x562556ba, 0x6b457f0a,
        0x89f57f59, 0xb49556e9, 0xf3352c39, 0xce550589, 0x7c75d999, 0x4115f029, 0x06b58af9, 0x3bd5a349,
        0xb9853498, 0x84e51d28, 0xc34567f8, 0xfe254e48, 0x4c059258, 0x7165bbe8, 0x36c5c138, 0x0ba5e888,
        0x28d4c7df, 0x15b4ee6f, 0x521494bf, 0x6f74bd0f, 0xdd54611f, 0xe03448af, 0xa794327f, 0x9af41bcf,
        0x18a48c1e, 0x25c4a5ae, 0x6264df7e, 0x5f04f6ce, 0xed242ade, 0xd044036e, 0x97e479be, 0xaa84500e,
        0x4834505d, 0x755479ed, 0x32f4033d, 0x0f942a8d, 0xbdb4f69d, 0x80d4df2d, 0xc774a5fd, 0xfa148c4d,
        0x78441b9c, 0x4524322c, 0x028448fc, 0x3fe4614c, 0x8dc4bd5c, 0xb0a494ec, 0xf704ee3c, 0xca64c78c,
    ],
    [
        0x00000000, 0xcb5cd3a5, 0x4dc8a10b, 0x869472ae, 0x9b914216, 0x50cd91b3, 0xd659e31d, 0x1d0530b8,
        0xec53826d, 0x270f51c8, 0xa19b2366, 0x6ac7f0c3, 0x77c2c07b, 0xbc9e13de, 0x3a0a6170, 0xf156b2d5,
        0x03d6029b, 0xc88ad13e, 0x4e1ea390, 0x85427035, 0x9847408d, 0x531b9328, 0xd58fe186, 0x1ed33223,
        0xef8580f6, 0x24d95353, 0xa24d21fd, 0x6911f258, 0x7414c2e0, 0xbf481145, 0x39dc63eb, 0xf280b04e,
        0x07ac0536, 0xccf0d693, 0x4a64a43d, 0x81387798, 0x9c3d4720, 0x57619485, 0xd1f5e62b, 0x1aa9358e,
        0xebff875b, 0x20a354fe, 0xa6372650, 0x6d6bf5f5, 0x706ec54d, 0xbb3216e8, 0x3da66446, 0xf6fab7e3,
        0x047a07ad, 0xcf26d408, 0x49b2a6a6, 0x82ee7503, 0x9feb45bb, 0x54b7961e, 0xd223e4b0, 0x197f3715,
        0xe82985c0, 0x23755665, 0xa5e124cb, 0x6ebdf76e, 0x73b8c7d6, 0xb8e41473, 0x3e7066dd, 0xf52cb578,
        0x0f580a6c, 0xc404d9c9, 0x4290ab67, 0x89cc78c2, 0x94c9487a, 0x5f959bdf, 0xd901e971, 0x125d3ad4,
        0xe30b8801, 0x28575ba4, 0xaec3290a, 0x659ffaaf, 0x789aca17, 0xb3c619b2, 0x35526b1c, 0xfe0eb8b9,
        0x0c8e08f7, 0xc7d2db52, 0x4146a9fc, 0x8a1a7a59, 0x971f4ae1, 0x5c439944, 0xdad7ebea, 0x118b384f,
        0xe0dd8a9a, 0x2b81593f, 0xad152b91, 0x6649f834, 0x7b4cc88c, 0xb0101b29, 0x36846987, 0xfdd8ba22,
        0x08f40f5a, 0xc3a8dcff, 0x453cae51, 0x8e607df4, 0x93654d4c, 0x58399ee9, 0xdeadec47, 0x15f13fe2,
        0xe4a78d37, 0x2ffb5e92, 0xa96f2c3c, 0x6233ff99, 0x7f36cf21, 0xb46a1c84, 0x32fe6e2a, 0xf9a2bd8f,
        0x0b220dc1, 0xc07ede64, 0x46eaacca, 0x8db67f6f, 0x90b34fd7, 0x5bef9c72, 0xdd7beedc, 0x16273d79,
        0xe7718fac, 0x2c2d5c09, 0xaab92ea7, 0x61e5fd02, 0x7ce0cdba, 0xb7bc1e1f, 0x31286cb1, 0xfa74bf14,
        0x1eb014d8, 0xd5ecc77d, 0x5378b5d3, 0x98246676, 0x852156ce, 0x4e7d856b, 0xc8e9f7c5, 0x03b52460,
        0xf2e396b5, 0x39bf4510, 0xbf2b37be, 0x7477e41b, 0x6972d4a3, 0xa22e0706, 0x24ba75a8, 0xefe6a60d,
        0x1d661643, 0xd63ac5e6, 0x50aeb748, 0x9bf264ed, 0x86f75455, 0x4dab87f0, 0xcb3ff55e, 0x006326fb,
        0xf135942e, 0x3a69478b, 0xbcfd3525, 0x77a1e680, 0x6aa4d638, 0xa1f8059d, 0x276c7733, 0xec30a496,
        0x191c11ee, 0xd240c24b, 0x54d4b0e5, 0x9f886340, 0x828d53f8, 0x49d1805d, 0xcf45f2f3, 0x04192156,
        0xf54f9383, 0x3e134026, 0xb8873288, 0x73dbe12d, 0x6eded195, 0xa5820230, 0x2316709e, 0xe84aa33b,
        0x1aca1375, 0xd196c0d0, 0x5702b27e, 0x9c5e61db, 0x815b5163, 0x4a0782c6, 0xcc93f068, 0x07cf23cd,
        0xf6999118, 0x3dc542bd, 0xbb513013, 0x700de3b6, 0x6d08d30e, 0xa65400ab, 0x20c07205, 0xeb9ca1a0,
        0x11e81eb4, 0xdab4cd11, 0x5c20bfbf, 0x977c6c1a, 0x8a795ca2, 0x41258f07, 0xc7b1fda9, 0x0ced2e0c,
        0xfdbb9cd9, 0x36e74f7c, 0xb0733dd2, 0x7b2fee77, 0x662adecf, 0xad760d6a, 0x2be27fc4, 0xe0beac61,
        0x123e1c2f, 0xd962cf8a, 0x5ff6bd24, 0x94aa6e81, 0x89af5e39, 0x42f38d9c, 0xc467ff32, 0x0f3b2c97,
        0xfe6d9e42, 0x35314de7, 0xb3a53f49, 0x78f9ecec, 0x65fcdc54, 0xaea00ff1, 0x28347d5f, 0xe368aefa,
        0x16441b82, 0xdd18c827, 0x5b8cba89, 0x90d0692c, 0x8dd55994, 0x46898a31, 0xc01df89f, 0x0b412b3a,
        0xfa1799ef, 0x314b4a4a, 0xb7df38e4, 0x7c83eb41, 0x6186dbf9, 0xaada085c, 0x2c4e7af2, 0xe712a957,
        0x15921919, 0xdececabc, 0x585ab812, 0x93066bb7, 0x8e035b0f, 0x455f88aa, 0xc3cbfa04, 0x089729a1,
        0xf9c19b74, 0x329d48d1, 0xb4093a7f, 0x7f55e9da, 0x6250d962, 0xa90c0ac7, 0x2f987869, 0xe4c4abcc,
    ],
    [
        0x00000000, 0xa6770bb4, 0x979f1129, 0x31e81a9d, 0xf44f2413, 0x52382fa7, 0x63d0353a, 0xc5a73e8e,
        0x33ef4e67, 0x959845d3, 0xa4705f4e, 0x020754fa, 0xc7a06a74, 0x61d761c0, 0x503f7b5d, 0xf64870e9,
        0x67de9cce, 0xc1a9977a, 0xf0418de7, 0x56368653, 0x9391b8dd, 0x35e6b369, 0x040ea9f4, 0xa279a240,
        0x5431d2a9, 0xf246d91d, 0xc3aec380, 0x65d9c834, 0xa07ef6ba, 0x0609fd0e, 0x37e1e793, 0x9196ec27,
        0xcfbd399c, 0x69ca3228, 0x582228b5, 0xfe552301, 0x3bf21d8f, 0x9d85163b, 0xac6d0ca6, 0x0a1a0712,
        0xfc5277fb, 0x5a257c4f, 0x6bcd66d2, 0xcdba6d66, 0x081d53e8, 0xae6a585c, 0x9f8242c1, 0x39f54975,
        0xa863a552, 0x0e14aee6, 0x3ffcb47b, 0x998bbfcf, 0x5c2c8141, 0xfa5b8af5, 0xcbb39068, 0x6dc49bdc,
        0x9b8ceb35, 0x3dfbe081, 0x0c13fa1c, 0xaa64f1a8, 0x6fc3cf26, 0xc9b4c492, 0xf85cde0f, 0x5e2bd5bb,
        0x440b7579, 0xe27c7ecd, 0xd3946450, 0x75e36fe4, 0xb044516a, 0x16335ade, 0x27db4043, 0x81ac4bf7,
        0x77e43b1e, 0xd19330aa, 0xe07b2a37, 0x460c2183, 0x83ab1f0d, 0x25dc14b9, 0x14340e24, 0xb2430590,
        0x23d5e9b7, 0x85a2e203, 0xb44af89e, 0x123df32a, 0xd79acda4, 0x71edc610, 0x4005dc8d, 0xe672d739,
        0x103aa7d0, 0xb64dac64, 0x87a5b6f9, 0x21d2bd4d, 0xe47583c3, 0x42028877, 0x73ea92ea, 0xd59d995e,
        0x8bb64ce5, 0x2dc14751, 0x1c295dcc, 0xba5e5678, 0x7ff968f6, 0xd98e6342, 0xe86679df, 0x4e11726b,
        0xb8590282, 0x1e2e0936, 0x2fc613ab, 0x89b1181f, 0x4c162691, 0xea612d25, 0xdb8937b8, 0x7dfe3c0c,
        0xec68d02b, 0x4a1fdb9f, 0x7bf7c102, 0xdd80cab6, 0x1827f438, 0xbe50ff8c, 0x8fb8e511, 0x29cfeea5,
        0xdf879e4c, 0x79f095f8, 0x48188f65, 0xee6f84d1, 0x2bc8ba5f, 0x8dbfb1eb, 0xbc57ab76, 0x1a20a0c2,
        0x8816eaf2, 0x2e61e146, 0x1f89fbdb, 0xb9fef06f, 0x7c59cee1, 0xda2ec555, 0xebc6dfc8, 0x4db1d47c,
        0xbbf9a495, 0x1d8eaf21, 0x2c66b5bc, 0x8a11be08, 0x4fb68086, 0xe9c18b32, 0xd82991af, 0x7e5e9a1b,
        0xefc8763c, 0x49bf7d88, 0x78576715, 0xde206ca1, 0x1b87522f, 0xbdf0599b, 0x8c184306, 0x2a6f48b2,
        0xdc27385b, 0x7a5033ef, 0x4bb82972, 0xedcf22c6, 0x28681c48, 0x8e1f17fc, 0xbff70d61, 0x198006d5,
        0x47abd36e, 0xe1dcd8da, 0xd034c247, 0x7643c9f3, 0xb3e4f77d, 0x1593fcc9, 0x247be654, 0x820cede0,
        0x74449d09, 0xd23396bd, 0xe3db8c20, 0x45ac8794, 0x800bb91a, 0x267cb2ae, 0x1794a833, 0xb1e3a387,
        0x20754fa0, 0x86024414, 0xb7ea5e89, 0x119d553d, 0xd43a6bb3, 0x724d6007, 0x43a57a9a, 0xe5d2712e,
        0x139a01c7, 0xb5ed0a73, 0x840510ee, 0x22721b5a, 0xe7d525d4, 0x41a22e60, 0x704a34fd, 0xd63d3f49,
        0xcc1d9f8b, 0x6a6a943f, 0x5b828ea2, 0xfdf58516, 0x3852bb98, 0x9e25b02c, 0xafcdaab1, 0x09baa105,
        0xfff2d1ec, 0x5985da58, 0x686dc0c5, 0xce1acb71, 0x0bbdf5ff, 0xadcafe4b, 0x9c22e4d6, 0x3a55ef62,
        0xabc30345, 0x0db408f1, 0x3c5c126c, 0x9a2b19d8, 0x5f8c2756, 0xf9fb2ce2, 0xc813367f, 0x6e643dcb,
        0x982c4d22, 0x3e5b4696, 0x0fb35c0b, 0xa9c457bf, 0x6c636931, 0xca146285, 0xfbfc7818, 0x5d8b73ac,
        0x03a0a617, 0xa5d7ada3, 0x943fb73e, 0x3248bc8a, 0xf7ef8204, 0x519889b0, 0x6070932d, 0xc6079899,
        0x304fe870, 0x9638e3c4, 0xa7d0f959, 0x01a7f2ed, 0xc400cc63, 0x6277c7d7, 0x539fdd4a, 0xf5e8d6fe,
        0x647e3ad9, 0xc209316d, 0xf3e12bf0, 0x55962044, 0x90311eca, 0x3646157e, 0x07ae0fe3, 0xa1d90457,
        0x579174be, 0xf1e67f0a, 0xc00e6597, 0x66796e23, 0xa3de50ad, 0x05a95b19, 0x34414184, 0x92364a30,
    ],
    [
        0x00000000, 0xccaa009e, 0x4225077d, 0x8e8f07e3, 0x844a0efa, 0x48e00e64, 0xc66f0987, 0x0ac50919,
        0xd3e51bb5, 0x1f4f1b2b, 0x91c01cc8, 0x5d6a1c56, 0x57af154f, 0x9b0515d1, 0x158a1232, 0xd92012ac,
        0x7cbb312b, 0xb01131b5, 0x3e9e3656, 0xf23436c8, 0xf8f13fd1, 0x345b3f4f, 0xbad438ac, 0x767e3832,
        0xaf5e2a9e, 0x63f42a00, 0xed7b2de3, 0x21d12d7d, 0x2b142464, 0xe7be24fa, 0x69312319, 0xa59b2387,
        0xf9766256, 0x35dc62c8, 0xbb53652b, 0x77f965b5, 0x7d3c6cac, 0xb1966c32, 0x3f196bd1, 0xf3b36b4f,
        0x2a9379e3, 0xe639797d, 0x68b67e9e, 0xa41c7e00, 0xaed97719, 0x62737787, 0xecfc7064, 0x205670fa,
        0x85cd537d, 0x496753e3, 0xc7e85400, 0x0b42549e, 0x01875d87, 0xcd2d5d19, 0x43a25afa, 0x8f085a64,
        0x562848c8, 0x9a824856, 0x140d4fb5, 0xd8a74f2b, 0xd2624632, 0x1ec846ac, 0x9047414f, 0x5ced41d1,
        0x299dc2ed, 0xe537c273, 0x6bb8c590, 0xa712c50e, 0xadd7cc17, 0x617dcc89, 0xeff2cb6a, 0x2358cbf4,
        0xfa78d958, 0x36d2d9c6, 0xb85dde25, 0x74f7debb, 0x7e32d7a2, 0xb298d73c, 0x3c17d0df, 0xf0bdd041,
        0x5526f3c6, 0x998cf358, 0x1703f4bb, 0xdba9f425, 0xd16cfd3c, 0x1dc6fda2, 0x9349fa41, 0x5fe3fadf,
        0x86c3e873, 0x4a69e8ed, 0xc4e6ef0e, 0x084cef90, 0x0289e689, 0xce23e617, 0x40ace1f4, 0x8c06e16a,
        0xd0eba0bb, 0x1c41a025, 0x92cea7c6, 0x5e64a758, 0x54a1ae41, 0x980baedf, 0x1684a93c, 0xda2ea9a2,
        0x030ebb0e, 0xcfa4bb90, 0x412bbc73, 0x8d81bced, 0x8744b5f4, 0x4beeb56a, 0xc561b289, 0x09cbb217,
        0xac509190, 0x60fa910e, 0xee7596ed, 0x22df9673, 0x281a9f6a, 0xe4b09ff4, 0x6a3f9817, 0xa6959889,
        0x7fb58a25, 0xb31f8abb, 0x3d908d58, 0xf13a8dc6, 0xfbff84df, 0x37558441, 0xb9da83a2, 0x7570833c,
        0x533b85da, 0x9f918544, 0x111e82a7, 0xddb48239, 0xd7718b20, 0x1bdb8bbe, 0x95548c5d, 0x59fe8cc3,
        0x80de9e6f, 0x4c749ef1, 0xc2fb9912, 0x0e51998c, 0x04949095, 0xc83e900b, 0x46b197e8, 0x8a1b9776,
        0x2f80b4f1, 0xe32ab46f, 0x6da5b38c, 0xa10fb312, 0xabcaba0b, 0x6760ba95, 0xe9efbd76, 0x2545bde8,
        0xfc65af44, 0x30cfafda, 0xbe40a839, 0x72eaa8a7, 0x782fa1be, 0xb485a120, 0x3a0aa6c3, 0xf6a0a65d,
        0xaa4de78c, 0x66e7e712, 0xe868e0f1, 0x24c2e06f, 0x2e07e976, 0xe2ade9e8, 0x6c22ee0b, 0xa088ee95,
        0x79a8fc39, 0xb502fca7, 0x3b8dfb44, 0xf727fbda, 0xfde2f2c3, 0x3148f25d, 0xbfc7f5be, 0x736df520,
        0xd6f6d6a7, 0x1a5cd639, 0x94d3d1da, 0x5879d144, 0x52bcd85d, 0x9e16d8c3, 0x1099df20, 0xdc33dfbe,
        0x0513cd12, 0xc9b9cd8c, 0x4736ca6f, 0x8b9ccaf1, 0x8159c3e8, 0x4df3c376, 0xc37cc495, 0x0fd6c40b,
        0x7aa64737, 0xb60c47a9, 0x3883404a, 0xf42940d4, 0xfeec49cd, 0x32464953, 0xbcc94eb0, 0x70634e2e,
        0xa9435c82, 0x65e95c1c, 0xeb665bff, 0x27cc5b61, 0x2d095278, 0xe1a352e6, 0x6f2c5505, 0xa386559b,
        0x061d761c, 0xcab77682, 0x44387161, 0x889271ff, 0x825778e6, 0x4efd7878, 0xc0727f9b, 0x0cd87f05,
        0xd5f86da9, 0x19526d37, 0x97dd6ad4, 0x5b776a4a, 0x51b26353, 0x9d1863cd, 0x1397642e, 0xdf3d64b0,
        0x83d02561, 0x4f7a25ff, 0xc1f5221c, 0x0d5f2282, 0x079a2b9b, 0xcb302b05, 0x45bf2ce6, 0x89152c78,
        0x50353ed4, 0x9c9f3e4a, 0x121039a9, 0xdeba3937, 0xd47f302e, 0x18d530b0, 0x965a3753, 0x5af037cd,
        0xff6b144a, 0x33c114d4, 0xbd4e1337, 0x71e413a9, 0x7b211ab0, 0xb78b1a2e, 0x39041dcd, 0xf5ae1d53,
        0x2c8e0fff, 0xe0240f61, 0x6eab0882, 0xa201081c, 0xa8c40105, 0x646e019b, 0xeae10678, 0x264b06e6,
    ],
    [
        0x00000000, 0x177b1443, 0x2ef62886, 0x398d3cc5, 0x5dec510c, 0x4a97454f, 0x731a798a, 0x64616dc9,
        0xbbd8a218, 0xaca3b65b, 0x952e8a9e, 0x82559edd, 0xe634f314, 0xf14fe757, 0xc8c2db92, 0xdfb9cfd1,
        0xacc04271, 0xbbbb5632, 0x82366af7, 0x954d7eb4, 0xf12c137d, 0xe657073e, 0xdfda3bfb, 0xc8a12fb8,
        0x1718e069, 0x0063f42a, 0x39eec8ef, 0x2e95dcac, 0x4af4b165, 0x5d8fa526, 0x640299e3, 0x73798da0,
        0x82f182a3, 0x958a96e0, 0xac07aa25, 0xbb7cbe66, 0xdf1dd3af, 0xc866c7ec, 0xf1ebfb29, 0xe690ef6a,
        0x392920bb, 0x2e5234f8, 0x17df083d, 0x00a41c7e, 0x64c571b7, 0x73be65f4, 0x4a335931, 0x5d484d72,
        0x2e31c0d2, 0x394ad491, 0x00c7e854, 0x17bcfc17, 0x73dd91de, 0x64a6859d, 0x5d2bb958, 0x4a50ad1b,
        0x95e962ca, 0x82927689, 0xbb1f4a4c, 0xac645e0f, 0xc80533c6, 0xdf7e2785, 0xe6f31b40, 0xf1880f03,
        0xde920307, 0xc9e91744, 0xf0642b81, 0xe71f3fc2, 0x837e520b, 0x94054648, 0xad887a8d, 0xbaf36ece,
        0x654aa11f, 0x7231b55c, 0x4bbc8999, 0x5cc79dda, 0x38a6f013, 0x2fdde450, 0x1650d895, 0x012bccd6,
        0x72524176, 0x65295535, 0x5ca469f0, 0x4bdf7db3, 0x2fbe107a, 0x38c50439, 0x014838fc, 0x16332cbf,
        0xc98ae36e, 0xdef1f72d, 0xe77ccbe8, 0xf007dfab, 0x9466b262, 0x831da621, 0xba909ae4, 0xadeb8ea7,
        0x5c6381a4, 0x4b1895e7, 0x7295a922, 0x65eebd61, 0x018fd0a8, 0x16f4c4eb, 0x2f79f82e, 0x3802ec6d,
        0xe7bb23bc, 0xf0c037ff, 0xc94d0b3a, 0xde361f79, 0xba5772b0, 0xad2c66f3, 0x94a15a36, 0x83da4e75,
        0xf0a3c3d5, 0xe7d8d796, 0xde55eb53, 0xc92eff10, 0xad4f92d9, 0xba34869a, 0x83b9ba5f, 0x94c2ae1c,
        0x4b7b61cd, 0x5c00758e, 0x658d494b, 0x72f65d08, 0x169730c1, 0x01ec2482, 0x38611847, 0x2f1a0c04,
        0x6655004f, 0x712e140c, 0x48a328c9, 0x5fd83c8a, 0x3bb95143, 0x2cc24500, 0x154f79c5, 0x02346d86,
        0xdd8da257, 0xcaf6b614, 0xf37b8ad1, 0xe4009e92, 0x8061f35b, 0x971ae718, 0xae97dbdd, 0xb9eccf9e,
        0xca95423e, 0xddee567d, 0xe4636ab8, 0xf3187efb, 0x97791332, 0x80020771, 0xb98f3bb4, 0xaef42ff7,
        0x714de026, 0x6636f465, 0x5fbbc8a0, 0x48c0dce3, 0x2ca1b12a, 0x3bdaa569, 0x025799ac, 0x152c8def,
        0xe4a482ec, 0xf3df96af, 0xca52aa6a, 0xdd29be29, 0xb948d3e0, 0xae33c7a3, 0x97befb66, 0x80c5ef25,
        0x5f7c20f4, 0x480734b7, 0x718a0872, 0x66f11c31, 0x029071f8, 0x15eb65bb, 0x2c66597e, 0x3b1d4d3d,
        0x4864c09d, 0x5f1fd4de, 0x6692e81b, 0x71e9fc58, 0x15889191, 0x02f385d2, 0x3b7eb917, 0x2c05ad54,
        0xf3bc6285, 0xe4c776c6, 0xdd4a4a03, 0xca315e40, 0xae503389, 0xb92b27ca, 0x80a61b0f, 0x97dd0f4c,
        0xb8c70348, 0xafbc170b, 0x96312bce, 0x814a3f8d, 0xe52b5244, 0xf2504607, 0xcbdd7ac2, 0xdca66e81,
        0x031fa150, 0x1464b513, 0x2de989d6, 0x3a929d95, 0x5ef3f05c, 0x4988e41f, 0x7005d8da, 0x677ecc99,
        0x14074139, 0x037c557a, 0x3af169bf, 0x2d8a7dfc, 0x49eb1035, 0x5e900476, 0x671d38b3, 0x70662cf0,
        0xafdfe321, 0xb8a4f762, 0x8129cba7, 0x9652dfe4, 0xf233b22d, 0xe548a66e, 0xdcc59aab, 0xcbbe8ee8,
        0x3a3681eb, 0x2d4d95a8, 0x14c0a96d, 0x03bbbd2e, 0x67dad0e7, 0x70a1c4a4, 0x492cf861, 0x5e57ec22,
        0x81ee23f3, 0x969537b0, 0xaf180b75, 0xb8631f36, 0xdc0272ff, 0xcb7966bc, 0xf2f45a79, 0xe58f4e3a,
        0x96f6c39a, 0x818dd7d9, 0xb800eb1c, 0xaf7bff5f, 0xcb1a9296, 0xdc6186d5, 0xe5ecba10, 0xf297ae53,
        0x2d2e6182, 0x3a5575c1, 0x03d84904, 0x14a35d47, 0x70c2308e, 0x67b924cd, 0x5e341808, 0x494f0c4b,
    ],
    [
        0x00000000, 0xefc26b3e, 0x04f5d03d, 0xeb37bb03, 0x09eba07a, 0xe629cb44, 0x0d1e7047, 0xe2dc1b79,
        0x13d740f4, 0xfc152bca, 0x172290c9, 0xf8e0fbf7, 0x1a3ce08e, 0xf5fe8bb0, 0x1ec930b3, 0xf10b5b8d,
        0x27ae81e8, 0xc86cead6, 0x235b51d5, 0xcc993aeb, 0x2e452192, 0xc1874aac, 0x2ab0f1af, 0xc5729a91,
        0x3479c11c, 0xdbbbaa22, 0x308c1121, 0xdf4e7a1f, 0x3d926166, 0xd2500a58, 0x3967b15b, 0xd6a5da65,
        0x4f5d03d0, 0xa09f68ee, 0x4ba8d3ed, 0xa46ab8d3, 0x46b6a3aa, 0xa974c894, 0x42437397, 0xad8118a9,
        0x5c8a4324, 0xb348281a, 0x587f9319, 0xb7bdf827, 0x5561e35e, 0xbaa38860, 0x51943363, 0xbe56585d,
        0x68f38238, 0x8731e906, 0x6c065205, 0x83c4393b, 0x61182242, 0x8eda497c, 0x65edf27f, 0x8a2f9941,
        0x7b24c2cc, 0x94e6a9f2, 0x7fd112f1, 0x901379cf, 0x72cf62b6, 0x9d0d0988, 0x763ab28b, 0x99f8d9b5,
        0x9eba07a0, 0x71786c9e, 0x9a4fd79d, 0x758dbca3, 0x9751a7da, 0x7893cce4, 0x93a477e7, 0x7c661cd9,
        0x8d6d4754, 0x62af2c6a, 0x89989769, 0x665afc57, 0x8486e72e, 0x6b448c10, 0x80733713, 0x6fb15c2d,
        0xb9148648, 0x56d6ed76, 0xbde15675, 0x52233d4b, 0xb0ff2632, 0x5f3d4d0c, 0xb40af60f, 0x5bc89d31,
        0xaac3c6bc, 0x4501ad82, 0xae361681, 0x41f47dbf, 0xa32866c6, 0x4cea0df8, 0xa7ddb6fb, 0x481fddc5,
        0xd1e70470, 0x3e256f4e, 0xd512d44d, 0x3ad0bf73, 0xd80ca40a, 0x37cecf34, 0xdcf97437, 0x333b1f09,
        0xc2304484, 0x2df22fba, 0xc6c594b9, 0x2907ff87, 0xcbdbe4fe, 0x24198fc0, 0xcf2e34c3, 0x20ec5ffd,
        0xf6498598, 0x198beea6, 0xf2bc55a5, 0x1d7e3e9b, 0xffa225e2, 0x10604edc, 0xfb57f5df, 0x14959ee1,
        0xe59ec56c, 0x0a5cae52, 0xe16b1551, 0x0ea97e6f, 0xec756516, 0x03b70e28, 0xe880b52b, 0x0742de15,
        0xe6050901, 0x09c7623f, 0xe2f0d93c, 0x0d32b202, 0xefeea97b, 0x002cc245, 0xeb1b7946, 0x04d91278,
        0xf5d249f5, 0x1a1022cb, 0xf12799c8, 0x1ee5f2f6, 0xfc39e98f, 0x13fb82b1, 0xf8cc39b2, 0x170e528c,
        0xc1ab88e9, 0x2e69e3d7, 0xc55e58d4, 0x2a9c33ea, 0xc8402893, 0x278243ad, 0xccb5f8ae, 0x23779390,
        0xd27cc81d, 0x3dbea323, 0xd6891820, 0x394b731e, 0xdb976867, 0x34550359, 0xdf62b85a, 0x30a0d364,
        0xa9580ad1, 0x469a61ef, 0xadaddaec, 0x426fb1d2, 0xa0b3aaab, 0x4f71c195, 0xa4467a96, 0x4b8411a8,
        0xba8f4a25, 0x554d211b, 0xbe7a9a18, 0x51b8f126, 0xb364ea5f, 0x5ca68161, 0xb7913a62, 0x5853515c,
        0x8ef68b39, 0x6134e007, 0x8a035b04, 0x65c1303a, 0x871d2b43, 0x68df407d, 0x83e8fb7e, 0x6c2a9040,
        0x9d21cbcd, 0x72e3a0f3, 0x99d41bf0, 0x761670ce, 0x94ca6bb7, 0x7b080089, 0x903fbb8a, 0x7ffdd0b4,
        0x78bf0ea1, 0x977d659f, 0x7c4ade9c, 0x9388b5a2, 0x7154aedb, 0x9e96c5e5, 0x75a17ee6, 0x9a6315d8,
        0x6b684e55, 0x84aa256b, 0x6f9d9e68, 0x805ff556, 0x6283ee2f, 0x8d418511, 0x66763e12, 0x89b4552c,
        0x5f118f49, 0xb0d3e477, 0x5be45f74, 0xb426344a, 0x56fa2f33, 0xb938440d, 0x520fff0e, 0xbdcd9430,
        0x4cc6cfbd, 0xa304a483, 0x48331f80, 0xa7f174be, 0x452d6fc7, 0xaaef04f9, 0x41d8bffa, 0xae1ad4c4,
        0x37e20d71, 0xd820664f, 0x3317dd4c, 0xdcd5b672, 0x3e09ad0b, 0xd1cbc635, 0x3afc7d36, 0xd53e1608,
        0x24354d85, 0xcbf726bb, 0x20c09db8, 0xcf02f686, 0x2ddeedff, 0xc21c86c1, 0x292b3dc2, 0xc6e956fc,
        0x104c8c99, 0xff8ee7a7, 0x14b95ca4, 0xfb7b379a, 0x19a72ce3, 0xf66547dd, 0x1d52fcde, 0xf29097e0,
        0x039bcc6d, 0xec59a753, 0x076e1c50, 0xe8ac776e, 0x0a706c17, 0xe5b20729, 0x0e85bc2a, 0xe147d714,
    ],
    [
        0x00000000, 0xc18edfc0, 0x586cb9c1, 0x99e26601, 0xb0d97382, 0x7157ac42, 0xe8b5ca43, 0x293b1583,
        0xbac3e145, 0x7b4d3e85, 0xe2af5884, 0x23218744, 0x0a1a92c7, 0xcb944d07, 0x52762b06, 0x93f8f4c6,
        0xaef6c4cb, 0x6f781b0b, 0xf69a7d0a, 0x3714a2ca, 0x1e2fb749, 0xdfa16889, 0x46430e88, 0x87cdd148,
        0x1435258e, 0xd5bbfa4e, 0x4c599c4f, 0x8dd7438f, 0xa4ec560c, 0x656289cc, 0xfc80efcd, 0x3d0e300d,
        0x869c8fd7, 0x47125017, 0xdef03616, 0x1f7ee9d6, 0x3645fc55, 0xf7cb2395, 0x6e294594, 0xafa79a54,
        0x3c5f6e92, 0xfdd1b152, 0x6433d753, 0xa5bd0893, 0x8c861d10, 0x4d08c2d0, 0xd4eaa4d1, 0x15647b11,
        0x286a4b1c, 0xe9e494dc, 0x7006f2dd, 0xb1882d1d, 0x98b3389e, 0x593de75e, 0xc0df815f, 0x01515e9f,
        0x92a9aa59, 0x53277599, 0xcac51398, 0x0b4bcc58, 0x2270d9db, 0xe3fe061b, 0x7a1c601a, 0xbb92bfda,
        0xd64819ef, 0x17c6c62f, 0x8e24a02e, 0x4faa7fee, 0x66916a6d, 0xa71fb5ad, 0x3efdd3ac, 0xff730c6c,
        0x6c8bf8aa, 0xad05276a, 0x34e7416b, 0xf5699eab, 0xdc528b28, 0x1ddc54e8, 0x843e32e9, 0x45b0ed29,
        0x78bedd24, 0xb93002e4, 0x20d264e5, 0xe15cbb25, 0xc867aea6, 0x09e97166, 0x900b1767, 0x5185c8a7,
        0xc27d3c61, 0x03f3e3a1, 0x9a1185a0, 0x5b9f5a60, 0x72a44fe3, 0xb32a9023, 0x2ac8f622, 0xeb4629e2,
        0x50d49638, 0x915a49f8, 0x08b82ff9, 0xc936f039, 0xe00de5ba, 0x21833a7a, 0xb8615c7b, 0x79ef83bb,
        0xea17777d, 0x2b99a8bd, 0xb27bcebc, 0x73f5117c, 0x5ace04ff, 0x9b40db3f, 0x02a2bd3e, 0xc32c62fe,
        0xfe2252f3, 0x3fac8d33, 0xa64eeb32, 0x67c034f2, 0x4efb2171, 0x8f75feb1, 0x169798b0, 0xd7194770,
        0x44e1b3b6, 0x856f6c76, 0x1c8d0a77, 0xdd03d5b7, 0xf438c034, 0x35b61ff4, 0xac5479f5, 0x6ddaa635,
        0x77e1359f, 0xb66fea5f, 0x2f8d8c5e, 0xee03539e, 0xc738461d, 0x06b699dd, 0x9f54ffdc, 0x5eda201c,
        0xcd22d4da, 0x0cac0b1a, 0x954e6d1b, 0x54c0b2db, 0x7dfba758, 0xbc757898, 0x25971e99, 0xe419c159,
        0xd917f154, 0x18992e94, 0x817b4895, 0x40f59755, 0x69ce82d6, 0xa8405d16, 0x31a23b17, 0xf02ce4d7,
        0x63d41011, 0xa25acfd1, 0x3bb8a9d0, 0xfa367610, 0xd30d6393, 0x1283bc53, 0x8b61da52, 0x4aef0592,
        0xf17dba48, 0x30f36588, 0xa9110389, 0x689fdc49, 0x41a4c9ca, 0x802a160a, 0x19c8700b, 0xd846afcb,
        0x4bbe5b0d, 0x8a3084cd, 0x13d2e2cc, 0xd25c3d0c, 0xfb67288f, 0x3ae9f74f, 0xa30b914e, 0x62854e8e,
        0x5f8b7e83, 0x9e05a143, 0x07e7c742, 0xc6691882, 0xef520d01, 0x2edcd2c1, 0xb73eb4c0, 0x76b06b00,
        0xe5489fc6, 0x24c64006, 0xbd242607, 0x7caaf9c7, 0x5591ec44, 0x941f3384, 0x0dfd5585, 0xcc738a45,
        0xa1a92c70, 0x6027f3b0, 0xf9c595b1, 0x384b4a71, 0x11705ff2, 0xd0fe8032, 0x491ce633, 0x889239f3,
        0x1b6acd35, 0xdae412f5, 0x430674f4, 0x8288ab34, 0xabb3beb7, 0x6a3d6177, 0xf3df0776, 0x3251d8b6,
        0x0f5fe8bb, 0xced1377b, 0x5733517a, 0x96bd8eba, 0xbf869b39, 0x7e0844f9, 0xe7ea22f8, 0x2664fd38,
        0xb59c09fe, 0x7412d63e, 0xedf0b03f, 0x2c7e6fff, 0x05457a7c, 0xc4cba5bc, 0x5d29c3bd, 0x9ca71c7d,
        0x2735a3a7, 0xe6bb7c67, 0x7f591a66, 0xbed7c5a6, 0x97ecd025, 0x56620fe5, 0xcf8069e4, 0x0e0eb624,
        0x9df642e2, 0x5c789d22, 0xc59afb23, 0x041424e3, 0x2d2f3160, 0xeca1eea0, 0x754388a1, 0xb4cd5761,
        0x89c3676c, 0x484db8ac, 0xd1afdead, 0x1021016d, 0x391a14ee, 0xf894cb2e, 0x6176ad2f, 0xa0f872ef,
        0x33008629, 0xf28e59e9, 0x6b6c3fe8, 0xaae2e028, 0x83d9f5ab, 0x42572a6b, 0xdbb54c6a, 0x1a3b93aa,
    ],
    [
        0x00000000, 0x9ba54c6f, 0xec3b9e9f, 0x779ed2f0, 0x03063b7f, 0x98a37710, 0xef3da5e0, 0x7498e98f,
        0x060c76fe, 0x9da93a91, 0xea37e861, 0x7192a40e, 0x050a4d81, 0x9eaf01ee, 0xe931d31e, 0x72949f71,
        0x0c18edfc, 0x97bda193, 0xe0237363, 0x7b863f0c, 0x0f1ed683, 0x94bb9aec, 0xe325481c, 0x78800473,
        0x0a149b02, 0x91b1d76d, 0xe62f059d, 0x7d8a49f2, 0x0912a07d, 0x92b7ec12, 0xe5293ee2, 0x7e8c728d,
        0x1831dbf8, 0x83949797, 0xf40a4567, 0x6faf0908, 0x1b37e087, 0x8092ace8, 0xf70c7e18, 0x6ca93277,
        0x1e3dad06, 0x8598e169, 0xf2063399, 0x69a37ff6, 0x1d3b9679, 0x869eda16, 0xf10008e6, 0x6aa54489,
        0x14293604, 0x8f8c7a6b, 0xf812a89b, 0x63b7e4f4, 0x172f0d7b, 0x8c8a4114, 0xfb1493e4, 0x60b1df8b,
        0x122540fa, 0x89800c95, 0xfe1ede65, 0x65bb920a, 0x11237b85, 0x8a8637ea, 0xfd18e51a, 0x66bda975,
        0x3063b7f0, 0xabc6fb9f, 0xdc58296f, 0x47fd6500, 0x33658c8f, 0xa8c0c0e0, 0xdf5e1210, 0x44fb5e7f,
        0x366fc10e, 0xadca8d61, 0xda545f91, 0x41f113fe, 0x3569fa71, 0xaeccb61e, 0xd95264ee, 0x42f72881,
        0x3c7b5a0c, 0xa7de1663, 0xd040c493, 0x4be588fc, 0x3f7d6173, 0xa4d82d1c, 0xd346ffec, 0x48e3b383,
        0x3a772cf2, 0xa1d2609d, 0xd64cb26d, 0x4de9fe02, 0x3971178d, 0xa2d45be2, 0xd54a8912, 0x4eefc57d,
        0x28526c08, 0xb3f72067, 0xc469f297, 0x5fccbef8, 0x2b545777, 0xb0f11b18, 0xc76fc9e8, 0x5cca8587,
        0x2e5e1af6, 0xb5fb5699, 0xc2658469, 0x59c0c806, 0x2d582189, 0xb6fd6de6, 0xc163bf16, 0x5ac6f379,
        0x244a81f4, 0xbfefcd9b, 0xc8711f6b, 0x53d45304, 0x274cba8b, 0xbce9f6e4, 0xcb772414, 0x50d2687b,
        0x2246f70a, 0xb9e3bb65, 0xce7d6995, 0x55d825fa, 0x2140cc75, 0xbae5801a, 0xcd7b52ea, 0x56de1e85,
        0x60c76fe0, 0xfb62238f, 0x8cfcf17f, 0x1759bd10, 0x63c1549f, 0xf86418f0, 0x8ffaca00, 0x145f866f,
        0x66cb191e, 0xfd6e5571, 0x8af08781, 0x1155cbee, 0x65cd2261, 0xfe686e0e, 0x89f6bcfe, 0x1253f091,
        0x6cdf821c, 0xf77ace73, 0x80e41c83, 0x1b4150ec, 0x6fd9b963, 0xf47cf50c, 0x83e227fc, 0x18476b93,
        0x6ad3f4e2, 0xf176b88d, 0x86e86a7d, 0x1d4d2612, 0x69d5cf9d, 0xf27083f2, 0x85ee5102, 0x1e4b1d6d,
        0x78f6b418, 0xe353f877, 0x94cd2a87, 0x0f6866e8, 0x7bf08f67, 0xe055c308, 0x97cb11f8, 0x0c6e5d97,
        0x7efac2e6, 0xe55f8e89, 0x92c15c79, 0x09641016, 0x7dfcf999, 0xe659b5f6, 0x91c76706, 0x0a622b69,
        0x74ee59e4, 0xef4b158b, 0x98d5c77b, 0x03708b14, 0x77e8629b, 0xec4d2ef4, 0x9bd3fc04, 0x0076b06b,
        0x72e22f1a, 0xe9476375, 0x9ed9b185, 0x057cfdea, 0x71e41465, 0xea41580a, 0x9ddf8afa, 0x067ac695,
        0x50a4d810, 0xcb01947f, 0xbc9f468f, 0x273a0ae0, 0x53a2e36f, 0xc807af00, 0xbf997df0, 0x243c319f,
        0x56a8aeee, 0xcd0de281, 0xba933071, 0x21367c1e, 0x55ae9591, 0xce0bd9fe, 0xb9950b0e, 0x22304761,
        0x5cbc35ec, 0xc7197983, 0xb087ab73, 0x2b22e71c, 0x5fba0e93, 0xc41f42fc, 0xb381900c, 0x2824dc63,
        0x5ab04312, 0xc1150f7d, 0xb68bdd8d, 0x2d2e91e2, 0x59b6786d, 0xc2133402, 0xb58de6f2, 0x2e28aa9d,
        0x489503e8, 0xd3304f87, 0xa4ae9d77, 0x3f0bd118, 0x4b933897, 0xd03674f8, 0xa7a8a608, 0x3c0dea67,
        0x4e997516, 0xd53c3979, 0xa2a2eb89, 0x3907a7e6, 0x4d9f4e69, 0xd63a0206, 0xa1a4d0f6, 0x3a019c99,
        0x448dee14, 0xdf28a27b, 0xa8b6708b, 0x33133ce4, 0x478bd56b, 0xdc2e9904, 0xabb04bf4, 0x3015079b,
        0x428198ea, 0xd924d485, 0xaeba0675, 0x351f4a1a, 0x4187a395, 0xda22effa, 0xadbc3d0a, 0x36197165,
    ],
    [
        0x00000000, 0xdd96d985, 0x605cb54b, 0xbdca6cce, 0xc0b96a96, 0x1d2fb313, 0xa0e5dfdd, 0x7d730658,
        0x5a03d36d, 0x87950ae8, 0x3a5f6626, 0xe7c9bfa3, 0x9abab9fb, 0x472c607e, 0xfae60cb0, 0x2770d535,
        0xb407a6da, 0x69917f5f, 0xd45b1391, 0x09cdca14, 0x74becc4c, 0xa92815c9, 0x14e27907, 0xc974a082,
        0xee0475b7, 0x3392ac32, 0x8e58c0fc, 0x53ce1979, 0x2ebd1f21, 0xf32bc6a4, 0x4ee1aa6a, 0x937773ef,
        0xb37e4bf5, 0x6ee89270, 0xd322febe, 0x0eb4273b, 0x73c72163, 0xae51f8e6, 0x139b9428, 0xce0d4dad,
        0xe97d9898, 0x34eb411d, 0x89212dd3, 0x54b7f456, 0x29c4f20e, 0xf4522b8b, 0x49984745, 0x940e9ec0,
        0x0779ed2f, 0xdaef34aa, 0x67255864, 0xbab381e1, 0xc7c087b9, 0x1a565e3c, 0xa79c32f2, 0x7a0aeb77,
        0x5d7a3e42, 0x80ece7c7, 0x3d268b09, 0xe0b0528c, 0x9dc354d4, 0x40558d51, 0xfd9fe19f, 0x2009381a,
        0xbd8d91ab, 0x601b482e, 0xddd124e0, 0x0047fd65, 0x7d34fb3d, 0xa0a222b8, 0x1d684e76, 0xc0fe97f3,
        0xe78e42c6, 0x3a189b43, 0x87d2f78d, 0x5a442e08, 0x27372850, 0xfaa1f1d5, 0x476b9d1b, 0x9afd449e,
        0x098a3771, 0xd41ceef4, 0x69d6823a, 0xb4405bbf, 0xc9335de7, 0x14a58462, 0xa96fe8ac, 0x74f93129,
        0x5389e41c, 0x8e1f3d99, 0x33d55157, 0xee4388d2, 0x93308e8a, 0x4ea6570f, 0xf36c3bc1, 0x2efae244,
        0x0ef3da5e, 0xd36503db, 0x6eaf6f15, 0xb339b690, 0xce4ab0c8, 0x13dc694d, 0xae160583, 0x7380dc06,
        0x54f00933, 0x8966d0b6, 0x34acbc78, 0xe93a65fd, 0x944963a5, 0x49dfba20, 0xf415d6ee, 0x29830f6b,
        0xbaf47c84, 0x6762a501, 0xdaa8c9cf, 0x073e104a, 0x7a4d1612, 0xa7dbcf97, 0x1a11a359, 0xc7877adc,
        0xe0f7afe9, 0x3d61766c, 0x80ab1aa2, 0x5d3dc327, 0x204ec57f, 0xfdd81cfa, 0x40127034, 0x9d84a9b1,
        0xa06a2517, 0x7dfcfc92, 0xc036905c, 0x1da049d9, 0x60d34f81, 0xbd459604, 0x008ffaca, 0xdd19234f,
        0xfa69f67a, 0x27ff2fff, 0x9a354331, 0x47a39ab4, 0x3ad09cec, 0xe7464569, 0x5a8c29a7, 0x871af022,
        0x146d83cd, 0xc9fb5a48, 0x74313686, 0xa9a7ef03, 0xd4d4e95b, 0x094230de, 0xb4885c10, 0x691e8595,
        0x4e6e50a0, 0x93f88925, 0x2e32e5eb, 0xf3a43c6e, 0x8ed73a36, 0x5341e3b3, 0xee8b8f7d, 0x331d56f8,
        0x13146ee2, 0xce82b767, 0x7348dba9, 0xaede022c, 0xd3ad0474, 0x0e3bddf1, 0xb3f1b13f, 0x6e6768ba,
        0x4917bd8f, 0x9481640a, 0x294b08c4, 0xf4ddd141, 0x89aed719, 0x54380e9c, 0xe9f26252, 0x3464bbd7,
        0xa713c838, 0x7a8511bd, 0xc74f7d73, 0x1ad9a4f6, 0x67aaa2ae, 0xba3c7b2b, 0x07f617e5, 0xda60ce60,
        0xfd101b55, 0x2086c2d0, 0x9d4cae1e, 0x40da779b, 0x3da971c3, 0xe03fa846, 0x5df5c488, 0x80631d0d,
        0x1de7b4bc, 0xc0716d39, 0x7dbb01f7, 0xa02dd872, 0xdd5ede2a, 0x00c807af, 0xbd026b61, 0x6094b2e4,
        0x47e467d1, 0x9a72be54, 0x27b8d29a, 0xfa2e0b1f, 0x875d0d47, 0x5acbd4c2, 0xe701b80c, 0x3a976189,
        0xa9e01266, 0x7476cbe3, 0xc9bca72d, 0x142a7ea8, 0x695978f0, 0xb4cfa175, 0x0905cdbb, 0xd493143e,
        0xf3e3c10b, 0x2e75188e, 0x93bf7440, 0x4e29adc5, 0x335aab9d, 0xeecc7218, 0x53061ed6, 0x8e90c753,
        0xae99ff49, 0x730f26cc, 0xcec54a02, 0x13539387, 0x6e2095df, 0xb3b64c5a, 0x0e7c2094, 0xd3eaf911,
        0xf49a2c24, 0x290cf5a1, 0x94c6996f, 0x495040ea, 0x342346b2, 0xe9b59f37, 0x547ff3f9, 0x89e92a7c,
        0x1a9e5993, 0xc7088016, 0x7ac2ecd8, 0xa754355d, 0xda273305, 0x07b1ea80, 0xba7b864e, 0x67ed5fcb,
        0x409d8afe, 0x9d0b537b, 0x20c13fb5, 0xfd57e630, 0x8024e068, 0x5db239ed, 0xe0785523, 0x3dee8ca6,
    ],
    [
        0x00000000, 0x9d0fe176, 0xe16ec4ad, 0x7c6125db, 0x19ac8f1b, 0x84a36e6d, 0xf8c24bb6, 0x65cdaac0,
        0x33591e36, 0xae56ff40, 0xd237da9b, 0x4f383bed, 0x2af5912d, 0xb7fa705b, 0xcb9b5580, 0x5694b4f6,
        0x66b23c6c, 0xfbbddd1a, 0x87dcf8c1, 0x1ad319b7, 0x7f1eb377, 0xe2115201, 0x9e7077da, 0x037f96ac,
        0x55eb225a, 0xc8e4c32c, 0xb485e6f7, 0x298a0781, 0x4c47ad41, 0xd1484c37, 0xad2969ec, 0x3026889a,
        0xcd6478d8, 0x506b99ae, 0x2c0abc75, 0xb1055d03, 0xd4c8f7c3, 0x49c716b5, 0x35a6336e, 0xa8a9d218,
        0xfe3d66ee, 0x63328798, 0x1f53a243, 0x825c4335, 0xe791e9f5, 0x7a9e0883, 0x06ff2d58, 0x9bf0cc2e,
        0xabd644b4, 0x36d9a5c2, 0x4ab88019, 0xd7b7616f, 0xb27acbaf, 0x2f752ad9, 0x53140f02, 0xce1bee74,
        0x988f5a82, 0x0580bbf4, 0x79e19e2f, 0xe4ee7f59, 0x8123d599, 0x1c2c34ef, 0x604d1134, 0xfd42f042,
        0x41b9f7f1, 0xdcb61687, 0xa0d7335c, 0x3dd8d22a, 0x581578ea, 0xc51a999c, 0xb97bbc47, 0x24745d31,
        0x72e0e9c7, 0xefef08b1, 0x938e2d6a, 0x0e81cc1c, 0x6b4c66dc, 0xf64387aa, 0x8a22a271, 0x172d4307,
        0x270bcb9d, 0xba042aeb, 0xc6650f30, 0x5b6aee46, 0x3ea74486, 0xa3a8a5f0, 0xdfc9802b, 0x42c6615d,
        0x1452d5ab, 0x895d34dd, 0xf53c1106, 0x6833f070, 0x0dfe5ab0, 0x90f1bbc6, 0xec909e1d, 0x719f7f6b,
        0x8cdd8f29, 0x11d26e5f, 0x6db34b84, 0xf0bcaaf2, 0x95710032, 0x087ee144, 0x741fc49f, 0xe91025e9,
        0xbf84911f, 0x228b7069, 0x5eea55b2, 0xc3e5b4c4, 0xa6281e04, 0x3b27ff72, 0x4746daa9, 0xda493bdf,
        0xea6fb345, 0x77605233, 0x0b0177e8, 0x960e969e, 0xf3c33c5e, 0x6eccdd28, 0x12adf8f3, 0x8fa21985,
        0xd936ad73, 0x44394c05, 0x385869de, 0xa55788a8, 0xc09a2268, 0x5d95c31e, 0x21f4e6c5, 0xbcfb07b3,
        0x8373efe2, 0x1e7c0e94, 0x621d2b4f, 0xff12ca39, 0x9adf60f9, 0x07d0818f, 0x7bb1a454, 0xe6be4522,
        0xb02af1d4, 0x2d2510a2, 0x51443579, 0xcc4bd40f, 0xa9867ecf, 0x34899fb9, 0x48e8ba62, 0xd5e75b14,
        0xe5c1d38e, 0x78ce32f8, 0x04af1723, 0x99a0f655, 0xfc6d5c95, 0x6162bde3, 0x1d039838, 0x800c794e,
        0xd698cdb8, 0x4b972cce, 0x37f60915, 0xaaf9e863, 0xcf3442a3, 0x523ba3d5, 0x2e5a860e, 0xb3556778,
        0x4e17973a, 0xd318764c, 0xaf795397, 0x3276b2e1, 0x57bb1821, 0xcab4f957, 0xb6d5dc8c, 0x2bda3dfa,
        0x7d4e890c, 0xe041687a, 0x9c204da1, 0x012facd7, 0x64e20617, 0xf9ede761, 0x858cc2ba, 0x188323cc,
        0x28a5ab56, 0xb5aa4a20, 0xc9cb6ffb, 0x54c48e8d, 0x3109244d, 0xac06c53b, 0xd067e0e0, 0x4d680196,
        0x1bfcb560, 0x86f35416, 0xfa9271cd, 0x679d90bb, 0x02503a7b, 0x9f5fdb0d, 0xe33efed6, 0x7e311fa0,
        0xc2ca1813, 0x5fc5f965, 0x23a4dcbe, 0xbeab3dc8, 0xdb669708, 0x4669767e, 0x3a0853a5, 0xa707b2d3,
        0xf1930625, 0x6c9ce753, 0x10fdc288, 0x8df223fe, 0xe83f893e, 0x75306848, 0x09514d93, 0x945eace5,
        0xa478247f, 0x3977c509, 0x4516e0d2, 0xd81901a4, 0xbdd4ab64, 0x20db4a12, 0x5cba6fc9, 0xc1b58ebf,
        0x97213a49, 0x0a2edb3f, 0x764ffee4, 0xeb401f92, 0x8e8db552, 0x13825424, 0x6fe371ff, 0xf2ec9089,
        0x0fae60cb, 0x92a181bd, 0xeec0a466, 0x73cf4510, 0x1602efd0, 0x8b0d0ea6, 0xf76c2b7d, 0x6a63ca0b,
        0x3cf77efd, 0xa1f89f8b, 0xdd99ba50, 0x40965b26, 0x255bf1e6, 0xb8541090, 0xc435354b, 0x593ad43d,
        0x691c5ca7, 0xf413bdd1, 0x8872980a, 0x157d797c, 0x70b0d3bc, 0xedbf32ca, 0x91de1711, 0x0cd1f667,
        0x5a454291, 0xc74aa3e7, 0xbb2b863c, 0x2624674a, 0x43e9cd8a, 0xdee62cfc, 0xa2870927, 0x3f88e851,
    ],
    [
        0x00000000, 0xb9fbdbe8, 0xa886b191, 0x117d6a79, 0x8a7c6563, 0x3387be8b, 0x22fad4f2, 0x9b010f1a,
        0xcf89cc87, 0x7672176f, 0x670f7d16, 0xdef4a6fe, 0x45f5a9e4, 0xfc0e720c, 0xed731875, 0x5488c39d,
        0x44629f4f, 0xfd9944a7, 0xece42ede, 0x551ff536, 0xce1efa2c, 0x77e521c4, 0x66984bbd, 0xdf639055,
        0x8beb53c8, 0x32108820, 0x236de259, 0x9a9639b1, 0x019736ab, 0xb86ced43, 0xa911873a, 0x10ea5cd2,
        0x88c53e9e, 0x313ee576, 0x20438f0f, 0x99b854e7, 0x02b95bfd, 0xbb428015, 0xaa3fea6c, 0x13c43184,
        0x474cf219, 0xfeb729f1, 0xefca4388, 0x56319860, 0xcd30977a, 0x74cb4c92, 0x65b626eb, 0xdc4dfd03,
        0xcca7a1d1, 0x755c7a39, 0x64211040, 0xdddacba8, 0x46dbc4b2, 0xff201f5a, 0xee5d7523, 0x57a6aecb,
        0x032e6d56, 0xbad5b6be, 0xaba8dcc7, 0x1253072f, 0x89520835, 0x30a9d3dd, 0x21d4b9a4, 0x982f624c,
        0xcafb7b7d, 0x7300a095, 0x627dcaec, 0xdb861104, 0x40871e1e, 0xf97cc5f6, 0xe801af8f, 0x51fa7467,
        0x0572b7fa, 0xbc896c12, 0xadf4066b, 0x140fdd83, 0x8f0ed299, 0x36f50971, 0x27886308, 0x9e73b8e0,
        0x8e99e432, 0x37623fda, 0x261f55a3, 0x9fe48e4b, 0x04e58151, 0xbd1e5ab9, 0xac6330c0, 0x1598eb28,
        0x411028b5, 0xf8ebf35d, 0xe9969924, 0x506d42cc, 0xcb6c4dd6, 0x7297963e, 0x63eafc47, 0xda1127af,
        0x423e45e3, 0xfbc59e0b, 0xeab8f472, 0x53432f9a, 0xc8422080, 0x71b9fb68, 0x60c49111, 0xd93f4af9,
        0x8db78964, 0x344c528c, 0x253138f5, 0x9ccae31d, 0x07cbec07, 0xbe3037ef, 0xaf4d5d96, 0x16b6867e,
        0x065cdaac, 0xbfa70144, 0xaeda6b3d, 0x1721b0d5, 0x8c20bfcf, 0x35db6427, 0x24a60e5e, 0x9d5dd5b6,
        0xc9d5162b, 0x702ecdc3, 0x6153a7ba, 0xd8a87c52, 0x43a97348, 0xfa52a8a0, 0xeb2fc2d9, 0x52d41931,
        0x4e87f0bb, 0xf77c2b53, 0xe601412a, 0x5ffa9ac2, 0xc4fb95d8, 0x7d004e30, 0x6c7d2449, 0xd586ffa1,
        0x810e3c3c, 0x38f5e7d4, 0x29888dad, 0x90735645, 0x0b72595f, 0xb28982b7, 0xa3f4e8ce, 0x1a0f3326,
        0x0ae56ff4, 0xb31eb41c, 0xa263de65, 0x1b98058d, 0x80990a97, 0x3962d17f, 0x281fbb06, 0x91e460ee,
        0xc56ca373, 0x7c97789b, 0x6dea12e2, 0xd411c90a, 0x4f10c610, 0xf6eb1df8, 0xe7967781, 0x5e6dac69,
        0xc642ce25, 0x7fb915cd, 0x6ec47fb4, 0xd73fa45c, 0x4c3eab46, 0xf5c570ae, 0xe4b81ad7, 0x5d43c13f,
        0x09cb02a2, 0xb030d94a, 0xa14db333, 0x18b668db, 0x83b767c1, 0x3a4cbc29, 0x2b31d650, 0x92ca0db8,
        0x8220516a, 0x3bdb8a82, 0x2aa6e0fb, 0x935d3b13, 0x085c3409, 0xb1a7efe1, 0xa0da8598, 0x19215e70,
        0x4da99ded, 0xf4524605, 0xe52f2c7c, 0x5cd4f794, 0xc7d5f88e, 0x7e2e2366, 0x6f53491f, 0xd6a892f7,
        0x847c8bc6, 0x3d87502e, 0x2cfa3a57, 0x9501e1bf, 0x0e00eea5, 0xb7fb354d, 0xa6865f34, 0x1f7d84dc,
        0x4bf54741, 0xf20e9ca9, 0xe373f6d0, 0x5a882d38, 0xc1892222, 0x7872f9ca, 0x690f93b3, 0xd0f4485b,
        0xc01e1489, 0x79e5cf61, 0x6898a518, 0xd1637ef0, 0x4a6271ea, 0xf399aa02, 0xe2e4c07b, 0x5b1f1b93,
        0x0f97d80e, 0xb66c03e6, 0xa711699f, 0x1eeab277, 0x85ebbd6d, 0x3c106685, 0x2d6d0cfc, 0x9496d714,
        0x0cb9b558, 0xb5426eb0, 0xa43f04c9, 0x1dc4df21, 0x86c5d03b, 0x3f3e0bd3, 0x2e4361aa, 0x97b8ba42,
        0xc33079df, 0x7acba237, 0x6bb6c84e, 0xd24d13a6, 0x494c1cbc, 0xf0b7c754, 0xe1caad2d, 0x583176c5,
        0x48db2a17, 0xf120f1ff, 0xe05d9b86, 0x59a6406e, 0xc2a74f74, 0x7b5c949c, 0x6a21fee5, 0xd3da250d,
        0x8752e690, 0x3ea93d78, 0x2fd45701, 0x962f8ce9, 0x0d2e83f3, 0xb4d5581b, 0xa5a83262, 0x1c53e98a,
    ],
    [
        0x00000000, 0xae689191, 0x87a02563, 0x29c8b4f2, 0xd4314c87, 0x7a59dd16, 0x539169e4, 0xfdf9f875,
        0x73139f4f, 0xdd7b0ede, 0xf4b3ba2c, 0x5adb2bbd, 0xa722d3c8, 0x094a4259, 0x2082f6ab, 0x8eea673a,
        0xe6273e9e, 0x484faf0f, 0x61871bfd, 0xcfef8a6c, 0x32167219, 0x9c7ee388, 0xb5b6577a, 0x1bdec6eb,
        0x9534a1d1, 0x3b5c3040, 0x129484b2, 0xbcfc1523, 0x4105ed56, 0xef6d7cc7, 0xc6a5c835, 0x68cd59a4,
        0x173f7b7d, 0xb957eaec, 0x909f5e1e, 0x3ef7cf8f, 0xc30e37fa, 0x6d66a66b, 0x44ae1299, 0xeac68308,
        0x642ce432, 0xca4475a3, 0xe38cc151, 0x4de450c0, 0xb01da8b5, 0x1e753924, 0x37bd8dd6, 0x99d51c47,
        0xf11845e3, 0x5f70d472, 0x76b86080, 0xd8d0f111, 0x25290964, 0x8b4198f5, 0xa2892c07, 0x0ce1bd96,
        0x820bdaac, 0x2c634b3d, 0x05abffcf, 0xabc36e5e, 0x563a962b, 0xf85207ba, 0xd19ab348, 0x7ff222d9,
        0x2e7ef6fa, 0x8016676b, 0xa9ded399, 0x07b64208, 0xfa4fba7d, 0x54272bec, 0x7def9f1e, 0xd3870e8f,
        0x5d6d69b5, 0xf305f824, 0xdacd4cd6, 0x74a5dd47, 0x895c2532, 0x2734b4a3, 0x0efc0051, 0xa09491c0,
        0xc859c864, 0x663159f5, 0x4ff9ed07, 0xe1917c96, 0x1c6884e3, 0xb2001572, 0x9bc8a180, 0x35a03011,
        0xbb4a572b, 0x1522c6ba, 0x3cea7248, 0x9282e3d9, 0x6f7b1bac, 0xc1138a3d, 0xe8db3ecf, 0x46b3af5e,
        0x39418d87, 0x97291c16, 0xbee1a8e4, 0x10893975, 0xed70c100, 0x43185091, 0x6ad0e463, 0xc4b875f2,
        0x4a5212c8, 0xe43a8359, 0xcdf237ab, 0x639aa63a, 0x9e635e4f, 0x300bcfde, 0x19c37b2c, 0xb7abeabd,
        0xdf66b319, 0x710e2288, 0x58c6967a, 0xf6ae07eb, 0x0b57ff9e, 0xa53f6e0f, 0x8cf7dafd, 0x229f4b6c,
        0xac752c56, 0x021dbdc7, 0x2bd50935, 0x85bd98a4, 0x784460d1, 0xd62cf140, 0xffe445b2, 0x518cd423,
        0x5cfdedf4, 0xf2957c65, 0xdb5dc897, 0x75355906, 0x88cca173, 0x26a430e2, 0x0f6c8410, 0xa1041581,
        0x2fee72bb, 0x8186e32a, 0xa84e57d8, 0x0626c649, 0xfbdf3e3c, 0x55b7afad, 0x7c7f1b5f, 0xd2178ace,
        0xbadad36a, 0x14b242fb, 0x3d7af609, 0x93126798, 0x6eeb9fed, 0xc0830e7c, 0xe94bba8e, 0x47232b1f,
        0xc9c94c25, 0x67a1ddb4, 0x4e696946, 0xe001f8d7, 0x1df800a2, 0xb3909133, 0x9a5825c1, 0x3430b450,
        0x4bc29689, 0xe5aa0718, 0xcc62b3ea, 0x620a227b, 0x9ff3da0e, 0x319b4b9f, 0x1853ff6d, 0xb63b6efc,
        0x38d109c6, 0x96b99857, 0xbf712ca5, 0x1119bd34, 0xece04541, 0x4288d4d0, 0x6b406022, 0xc528f1b3,
        0xade5a817, 0x038d3986, 0x2a458d74, 0x842d1ce5, 0x79d4e490, 0xd7bc7501, 0xfe74c1f3, 0x501c5062,
        0xdef63758, 0x709ea6c9, 0x5956123b, 0xf73e83aa, 0x0ac77bdf, 0xa4afea4e, 0x8d675ebc, 0x230fcf2d,
        0x72831b0e, 0xdceb8a9f, 0xf5233e6d, 0x5b4baffc, 0xa6b25789, 0x08dac618, 0x211272ea, 0x8f7ae37b,
        0x01908441, 0xaff815d0, 0x8630a122, 0x285830b3, 0xd5a1c8c6, 0x7bc95957, 0x5201eda5, 0xfc697c34,
        0x94a42590, 0x3accb401, 0x130400f3, 0xbd6c9162, 0x40956917, 0xeefdf886, 0xc7354c74, 0x695ddde5,
        0xe7b7badf, 0x49df2b4e, 0x60179fbc, 0xce7f0e2d, 0x3386f658, 0x9dee67c9, 0xb426d33b, 0x1a4e42aa,
        0x65bc6073, 0xcbd4f1e2, 0xe21c4510, 0x4c74d481, 0xb18d2cf4, 0x1fe5bd65, 0x362d0997, 0x98459806,
        0x16afff3c, 0xb8c76ead, 0x910fda5f, 0x3f674bce, 0xc29eb3bb, 0x6cf6222a, 0x453e96d8, 0xeb560749,
        0x839b5eed, 0x2df3cf7c, 0x043b7b8e, 0xaa53ea1f, 0x57aa126a, 0xf9c283fb, 0xd00a3709, 0x7e62a698,
        0xf088c1a2, 0x5ee05033, 0x7728e4c1, 0xd9407550, 0x24b98d25, 0x8ad11cb4, 0xa319a846, 0x0d7139d7,
    ],
];

/// Reads entry `i` of table `k`: the byte `i`, taken as a register and
/// advanced by `k + 1` zero bytes.
#[inline]
pub fn lookup(k: usize, i: u8) -> (e: u32)
    requires
        k < 16,
    ensures
        e == shift_bytes(i as u32, (k + 1) as nat),
{
    proof {
        lemma_table_entry(k as int, i as int);
    }
    CRC32_TABLE[k][i as usize]
}

/// Every entry of every table is what the model says it is: the byte value
/// that indexes it, taken as a register and advanced by as many zero bytes
/// as the table's number plus one.
pub proof fn lemma_table_entry(k: int, i: int)
    requires
        0 <= k < 16,
        0 <= i < 256,
    ensures
        CRC32_TABLE[k][i] == shift_bytes(i as u32, (k + 1) as nat),
    decreases k,
{
    if k == 0 {
        lemma_row_0(i);
        assert(shift_bytes(i as u32, 1) == shift_byte(shift_bytes(i as u32, 0)));
    } else {
        lemma_table_entry(k - 1, i);
        lemma_row_succ(k, i);
    }
}

/// Each table after the first is the previous one advanced by a zero byte.
proof fn lemma_row_succ(k: int, i: int)
    requires
        1 <= k < 16,
        0 <= i < 256,
    ensures
        CRC32_TABLE[k][i] == shift_byte(CRC32_TABLE[k - 1][i]),
{
    if k == 1 {
        lemma_row_1(i);
    } else if k == 2 {
        lemma_row_2(i);
    } else if k == 3 {
        lemma_row_3(i);
    } else if k == 4 {
        lemma_row_4(i);
    } else if k == 5 {
        lemma_row_5(i);
    } else if k == 6 {
        lemma_row_6(i);
    } else if k == 7 {
        lemma_row_7(i);
    } else if k == 8 {
        lemma_row_8(i);
    } else if k == 9 {
        lemma_row_9(i);
    } else if k == 10 {
        lemma_row_10(i);
    } else if k == 11 {
        lemma_row_11(i);
    } else if k == 12 {
        lemma_row_12(i);
    } else if k == 13 {
        lemma_row_13(i);
    } else if k == 14 {
        lemma_row_14(i);
    } else {
        lemma_row_15(i);
    }
}

/// `shift_byte` under a name that stays folded while the solver walks the
/// literal entries of a table.
#[verifier::opaque]
spec fn stepped(r: u32) -> u32 {
    shift_byte(r)
}

/// An index into a table is one of the 256 byte values.  Spelled out, this
/// makes the solver take the entries one at a time.
proof fn lemma_byte_cases(i: int)
    requires
        0 <= i < 256,
    ensures
        i == 0 || i == 1 || i == 2 || i == 3 || i == 4 || i == 5 || i == 6 || i == 7
            || i == 8 || i == 9 || i == 10 || i == 11 || i == 12 || i == 13 || i == 14 || i == 15
            || i == 16 || i == 17 || i == 18 || i == 19 || i == 20 || i == 21 || i == 22 || i == 23
            || i == 24 || i == 25 || i == 26 || i == 27 || i == 28 || i == 29 || i == 30 || i == 31
            || i == 32 || i == 33 || i == 34 || i == 35 || i == 36 || i == 37 || i == 38 || i == 39
            || i == 40 || i == 41 || i == 42 || i == 43 || i == 44 || i == 45 || i == 46 || i == 47
            || i == 48 || i == 49 || i == 50 || i == 51 || i == 52 || i == 53 || i == 54 || i == 55
            || i == 56 || i == 57 || i == 58 || i == 59 || i == 60 || i == 61 || i == 62 || i == 63
            || i == 64 || i == 65 || i == 66 || i == 67 || i == 68 || i == 69 || i == 70 || i == 71
            || i == 72 || i == 73 || i == 74 || i == 75 || i == 76 || i == 77 || i == 78 || i == 79
            || i == 80 || i == 81 || i == 82 || i == 83 || i == 84 || i == 85 || i == 86 || i == 87
            || i == 88 || i == 89 || i == 90 || i == 91 || i == 92 || i == 93 || i == 94 || i == 95
            || i == 96 || i == 97 || i == 98 || i == 99 || i == 100 || i == 101 || i == 102 || i == 103
            || i == 104 || i == 105 || i == 106 || i == 107 || i == 108 || i == 109 || i == 110 || i == 111
            || i == 112 || i == 113 || i == 114 || i == 115 || i == 116 || i == 117 || i == 118 || i == 119
            || i == 120 || i == 121 || i == 122 || i == 123 || i == 124 || i == 125 || i == 126 || i == 127
            || i == 128 || i == 129 || i == 130 || i == 131 || i == 132 || i == 133 || i == 134 || i == 135
            || i == 136 || i == 137 || i == 138 || i == 139 || i == 140 || i == 141 || i == 142 || i == 143
            || i == 144 || i == 145 || i == 146 || i == 147 || i == 148 || i == 149 || i == 150 || i == 151
            || i == 152 || i == 153 || i == 154 || i == 155 || i == 156 || i == 157 || i == 158 || i == 159
            || i == 160 || i == 161 || i == 162 || i == 163 || i == 164 || i == 165 || i == 166 || i == 167
            || i == 168 || i == 169 || i == 170 || i == 171 || i == 172 || i == 173 || i == 174 || i == 175
            || i == 176 || i == 177 || i == 178 || i == 179 || i == 180 || i == 181 || i == 182 || i == 183
            || i == 184 || i == 185 || i == 186 || i == 187 || i == 188 || i == 189 || i == 190 || i == 191
            || i == 192 || i == 193 || i == 194 || i == 195 || i == 196 || i == 197 || i == 198 || i == 199
            || i == 200 || i == 201 || i == 202 || i == 203 || i == 204 || i == 205 || i == 206 || i == 207
            || i == 208 || i == 209 || i == 210 || i == 211 || i == 212 || i == 213 || i == 214 || i == 215
            || i == 216 || i == 217 || i == 218 || i == 219 || i == 220 || i == 221 || i == 222 || i == 223
            || i == 224 || i == 225 || i == 226 || i == 227 || i == 228 || i == 229 || i == 230 || i == 231
            || i == 232 || i == 233 || i == 234 || i == 235 || i == 236 || i == 237 || i == 238 || i == 239
            || i == 240 || i == 241 || i == 242 || i == 243 || i == 244 || i == 245 || i == 246 || i == 247
            || i == 248 || i == 249 || i == 250 || i == 251 || i == 252 || i == 253 || i == 254 || i == 255,
{
}

proof fn lemma_row_0(i: int)
    requires
        0 <= i < 256,
    ensures
        CRC32_TABLE[0][i] == shift_byte(i as u32),
{
    assert(CRC32_TABLE[0][i] == stepped(i as u32)) by {
        lemma_byte_cases(i);
        lemma_steps_0();
    }
    reveal(stepped);
}

/// What each byte value becomes over a zero byte.
proof fn lemma_steps_0()
    by (bit_vector)
    ensures
        stepped(0u32) == 0x00000000u32,
        stepped(1u32) == 0x77073096u32,
        stepped(2u32) == 0xee0e612cu32,
        stepped(3u32) == 0x990951bau32,
        stepped(4u32) == 0x076dc419u32,
        stepped(5u32) == 0x706af48fu32,
        stepped(6u32) == 0xe963a535u32,
        stepped(7u32) == 0x9e6495a3u32,
        stepped(8u32) == 0x0edb8832u32,
        stepped(9u32) == 0x79dcb8a4u32,
        stepped(10u32) == 0xe0d5e91eu32,
        stepped(11u32) == 0x97d2d988u32,
        stepped(12u32) == 0x09b64c2bu32,
        stepped(13u32) == 0x7eb17cbdu32,
        stepped(14u32) == 0xe7b82d07u32,
        stepped(15u32) == 0x90bf1d91u32,
        stepped(16u32) == 0x1db71064u32,
        stepped(17u32) == 0x6ab020f2u32,
        stepped(18u32) == 0xf3b97148u32,
        stepped(19u32) == 0x84be41deu32,
        stepped(20u32) == 0x1adad47du32,
        stepped(21u32) == 0x6ddde4ebu32,
        stepped(22u32) == 0xf4d4b551u32,
        stepped(23u32) == 0x83d385c7u32,
        stepped(24u32) == 0x136c9856u32,
        stepped(25u32) == 0x646ba8c0u32,
        stepped(26u32) == 0xfd62f97au32,
        stepped(27u32) == 0x8a65c9ecu32,
        stepped(28u32) == 0x14015c4fu32,
        stepped(29u32) == 0x63066cd9u32,
        stepped(30u32) == 0xfa0f3d63u32,
        stepped(31u32) == 0x8d080df5u32,
        stepped(32u32) == 0x3b6e20c8u32,
        stepped(33u32) == 0x4c69105eu32,
        stepped(34u32) == 0xd56041e4u32,
        stepped(35u32) == 0xa2677172u32,
        stepped(36u32) == 0x3c03e4d1u32,
        stepped(37u32) == 0x4b04d447u32,
        stepped(38u32) == 0xd20d85fdu32,
        stepped(39u32) == 0xa50ab56bu32,
        stepped(40u32) == 0x35b5a8fau32,
        stepped(41u32) == 0x42b2986cu32,
        stepped(42u32) == 0xdbbbc9d6u32,
        stepped(43u32) == 0xacbcf940u32,
        stepped(44u32) == 0x32d86ce3u32,
        stepped(45u32) == 0x45df5c75u32,
        stepped(46u32) == 0xdcd60dcfu32,
        stepped(47u32) == 0xabd13d59u32,
        stepped(48u32) == 0x26d930acu32,
        stepped(49u32) == 0x51de003au32,
        stepped(50u32) == 0xc8d75180u32,
        stepped(51u32) == 0xbfd06116u32,
        stepped(52u32) == 0x21b4f4b5u32,
        stepped(53u32) == 0x56b3c423u32,
        stepped(54u32) == 0xcfba9599u32,
        stepped(55u32) == 0xb8bda50fu32,
        stepped(56u32) == 0x2802b89eu32,
        stepped(57u32) == 0x5f058808u32,
        stepped(58u32) == 0xc60cd9b2u32,
        stepped(59u32) == 0xb10be924u32,
        stepped(60u32) == 0x2f6f7c87u32,
        stepped(61u32) == 0x58684c11u32,
        stepped(62u32) == 0xc1611dabu32,
        stepped(63u32) == 0xb6662d3du32,
        stepped(64u32) == 0x76dc4190u32,
        stepped(65u32) == 0x01db7106u32,
        stepped(66u32) == 0x98d220bcu32,
        stepped(67u32) == 0xefd5102au32,
        stepped(68u32) == 0x71b18589u32,
        stepped(69u32) == 0x06b6b51fu32,
        stepped(70u32) == 0x9fbfe4a5u32,
        stepped(71u32) == 0xe8b8d433u32,
        stepped(72u32) == 0x7807c9a2u32,
        stepped(73u32) == 0x0f00f934u32,
        stepped(74u32) == 0x9609a88eu32,
        stepped(75u32) == 0xe10e9818u32,
        stepped(76u32) == 0x7f6a0dbbu32,
        stepped(77u32) == 0x086d3d2du32,
        stepped(78u32) == 0x91646c97u32,
        stepped(79u32) == 0xe6635c01u32,
        stepped(80u32) == 0x6b6b51f4u32,
        stepped(81u32) == 0x1c6c6162u32,
        stepped(82u32) == 0x856530d8u32,
        stepped(83u32) == 0xf262004eu32,
        stepped(84u32) == 0x6c0695edu32,
        stepped(85u32) == 0x1b01a57bu32,
        stepped(86u32) == 0x8208f4c1u32,
        stepped(87u32) == 0xf50fc457u32,
        stepped(88u32) == 0x65b0d9c6u32,
        stepped(89u32) == 0x12b7e950u32,
        stepped(90u32) == 0x8bbeb8eau32,
        stepped(91u32) == 0xfcb9887cu32,
        stepped(92u32) == 0x62dd1ddfu32,
        stepped(93u32) == 0x15da2d49u32,
        stepped(94u32) == 0x8cd37cf3u32,
        stepped(95u32) == 0xfbd44c65u32,
        stepped(96u32) == 0x4db26158u32,
        stepped(97u32) == 0x3ab551ceu32,
        stepped(98u32) == 0xa3bc0074u32,
        stepped(99u32) == 0xd4bb30e2u32,
        stepped(100u32) == 0x4adfa541u32,
        stepped(101u32) == 0x3dd895d7u32,
        stepped(102u32) == 0xa4d1c46du32,
        stepped(103u32) == 0xd3d6f4fbu32,
        stepped(104u32) == 0x4369e96au32,
        stepped(105u32) == 0x346ed9fcu32,
        stepped(106u32) == 0xad678846u32,
        stepped(107u32) == 0xda60b8d0u32,
        stepped(108u32) == 0x44042d73u32,
        stepped(109u32) == 0x33031de5u32,
        stepped(110u32) == 0xaa0a4c5fu32,
        stepped(111u32) == 0xdd0d7cc9u32,
        stepped(112u32) == 0x5005713cu32,
        stepped(113u32) == 0x270241aau32,
        stepped(114u32) == 0xbe0b1010u32,
        stepped(115u32) == 0xc90c2086u32,
        stepped(116u32) == 0x5768b525u32,
        stepped(117u32) == 0x206f85b3u32,
        stepped(118u32) == 0xb966d409u32,
        stepped(119u32) == 0xce61e49fu32,
        stepped(120u32) == 0x5edef90eu32,
        stepped(121u32) == 0x29d9c998u32,
        stepped(122u32) == 0xb0d09822u32,
        stepped(123u32) == 0xc7d7a8b4u32,
        stepped(124u32) == 0x59b33d17u32,
        stepped(125u32) == 0x2eb40d81u32,
        stepped(126u32) == 0xb7bd5c3bu32,
        stepped(127u32) == 0xc0ba6cadu32,
        stepped(128u32) == 0xedb88320u32,
        stepped(129u32) == 0x9abfb3b6u32,
        stepped(130u32) == 0x03b6e20cu32,
        stepped(131u32) == 0x74b1d29au32,
        stepped(132u32) == 0xead54739u32,
        stepped(133u32) == 0x9dd277afu32,
        stepped(134u32) == 0x04db2615u32,
        stepped(135u32) == 0x73dc1683u32,
        stepped(136u32) == 0xe3630b12u32,
        stepped(137u32) == 0x94643b84u32,
        stepped(138u32) == 0x0d6d6a3eu32,
        stepped(139u32) == 0x7a6a5aa8u32,
        stepped(140u32) == 0xe40ecf0bu32,
        stepped(141u32) == 0x9309ff9du32,
        stepped(142u32) == 0x0a00ae27u32,
        stepped(143u32) == 0x7d079eb1u32,
        stepped(144u32) == 0xf00f9344u32,
        stepped(145u32) == 0x8708a3d2u32,
        stepped(146u32) == 0x1e01f268u32,
        stepped(147u32) == 0x6906c2feu32,
        stepped(148u32) == 0xf762575du32,
        stepped(149u32) == 0x806567cbu32,
        stepped(150u32) == 0x196c3671u32,
        stepped(151u32) == 0x6e6b06e7u32,
        stepped(152u32) == 0xfed41b76u32,
        stepped(153u32) == 0x89d32be0u32,
        stepped(154u32) == 0x10da7a5au32,
        stepped(155u32) == 0x67dd4accu32,
        stepped(156u32) == 0xf9b9df6fu32,
        stepped(157u32) == 0x8ebeeff9u32,
        stepped(158u32) == 0x17b7be43u32,
        stepped(159u32) == 0x60b08ed5u32,
        stepped(160u32) == 0xd6d6a3e8u32,
        stepped(161u32) == 0xa1d1937eu32,
        stepped(162u32) == 0x38d8c2c4u32,
        stepped(163u32) == 0x4fdff252u32,
        stepped(164u32) == 0xd1bb67f1u32,
        stepped(165u32) == 0xa6bc5767u32,
        stepped(166u32) == 0x3fb506ddu32,
        stepped(167u32) == 0x48b2364bu32,
        stepped(168u32) == 0xd80d2bdau32,
        stepped(169u32) == 0xaf0a1b4cu32,
        stepped(170u32) == 0x36034af6u32,
        stepped(171u32) == 0x41047a60u32,
        stepped(172u32) == 0xdf60efc3u32,
        stepped(173u32) == 0xa867df55u32,
        stepped(174u32) == 0x316e8eefu32,
        stepped(175u32) == 0x4669be79u32,
        stepped(176u32) == 0xcb61b38cu32,
        stepped(177u32) == 0xbc66831au32,
        stepped(178u32) == 0x256fd2a0u32,
        stepped(179u32) == 0x5268e236u32,
        stepped(180u32) == 0xcc0c7795u32,
        stepped(181u32) == 0xbb0b4703u32,
        stepped(182u32) == 0x220216b9u32,
        stepped(183u32) == 0x5505262fu32,
        stepped(184u32) == 0xc5ba3bbeu32,
        stepped(185u32) == 0xb2bd0b28u32,
        stepped(186u32) == 0x2bb45a92u32,
        stepped(187u32) == 0x5cb36a04u32,
        stepped(188u32) == 0xc2d7ffa7u32,
        stepped(189u32) == 0xb5d0cf31u32,
        stepped(190u32) == 0x2cd99e8bu32,
        stepped(191u32) == 0x5bdeae1du32,
        stepped(192u32) == 0x9b64c2b0u32,
        stepped(193u32) == 0xec63f226u32,
        stepped(194u32) == 0x756aa39cu32,
        stepped(195u32) == 0x026d930au32,
        stepped(196u32) == 0x9c0906a9u32,
        stepped(197u32) == 0xeb0e363fu32,
        stepped(198u32) == 0x72076785u32,
        stepped(199u32) == 0x05005713u32,
        stepped(200u32) == 0x95bf4a82u32,
        stepped(201u32) == 0xe2b87a14u32,
        stepped(202u32) == 0x7bb12baeu32,
        stepped(203u32) == 0x0cb61b38u32,
        stepped(204u32) == 0x92d28e9bu32,
        stepped(205u32) == 0xe5d5be0du32,
        stepped(206u32) == 0x7cdcefb7u32,
        stepped(207u32) == 0x0bdbdf21u32,
        stepped(208u32) == 0x86d3d2d4u32,
        stepped(209u32) == 0xf1d4e242u32,
        stepped(210u32) == 0x68ddb3f8u32,
        stepped(211u32) == 0x1fda836eu32,
        stepped(212u32) == 0x81be16cdu32,
        stepped(213u32) == 0xf6b9265bu32,
        stepped(214u32) == 0x6fb077e1u32,
        stepped(215u32) == 0x18b74777u32,
        stepped(216u32) == 0x88085ae6u32,
        stepped(217u32) == 0xff0f6a70u32,
        stepped(218u32) == 0x66063bcau32,
        stepped(219u32) == 0x11010b5cu32,
        stepped(220u32) == 0x8f659effu32,
        stepped(221u32) == 0xf862ae69u32,
        stepped(222u32) == 0x616bffd3u32,
        stepped(223u32) == 0x166ccf45u32,
        stepped(224u32) == 0xa00ae278u32,
        stepped(225u32) == 0xd70dd2eeu32,
        stepped(226u32) == 0x4e048354u32,
        stepped(227u32) == 0x3903b3c2u32,
        stepped(228u32) == 0xa7672661u32,
        stepped(229u32) == 0xd06016f7u32,
        stepped(230u32) == 0x4969474du32,
        stepped(231u32) == 0x3e6e77dbu32,
        stepped(232u32) == 0xaed16a4au32,
        stepped(233u32) == 0xd9d65adcu32,
        stepped(234u32) == 0x40df0b66u32,
        stepped(235u32) == 0x37d83bf0u32,
        stepped(236u32) == 0xa9bcae53u32,
        stepped(237u32) == 0xdebb9ec5u32,
        stepped(238u32) == 0x47b2cf7fu32,
        stepped(239u32) == 0x30b5ffe9u32,
        stepped(240u32) == 0xbdbdf21cu32,
        stepped(241u32) == 0xcabac28au32,
        stepped(242u32) == 0x53b39330u32,
        stepped(243u32) == 0x24b4a3a6u32,
        stepped(244u32) == 0xbad03605u32,
        stepped(245u32) == 0xcdd70693u32,
        stepped(246u32) == 0x54de5729u32,
        stepped(247u32) == 0x23d967bfu32,
        stepped(248u32) == 0xb3667a2eu32,
        stepped(249u32) == 0xc4614ab8u32,
        stepped(250u32) == 0x5d681b02u32,
        stepped(251u32) == 0x2a6f2b94u32,
        stepped(252u32) == 0xb40bbe37u32,
        stepped(253u32) == 0xc30c8ea1u32,
        stepped(254u32) == 0x5a05df1bu32,
        stepped(255u32) == 0x2d02ef8du32,
{
}

proof fn lemma_row_1(i: int)
    requires
        0 <= i < 256,
    ensures
        CRC32_TABLE[1][i] == shift_byte(CRC32_TABLE[0][i]),
{
    assert(CRC32_TABLE[1][i] == stepped(CRC32_TABLE[0][i])) by {
        lemma_byte_cases(i);
        lemma_steps_1();
    }
    reveal(stepped);
}

/// What each entry of table 0 becomes over a zero byte.
proof fn lemma_steps_1()
    by (bit_vector)
    ensures
        stepped(0x00000000u32) == 0x00000000u32,
        stepped(0x77073096u32) == 0x191b3141u32,
        stepped(0xee0e612cu32) == 0x32366282u32,
        stepped(0x990951bau32) == 0x2b2d53c3u32,
        stepped(0x076dc419u32) == 0x646cc504u32,
        stepped(0x706af48fu32) == 0x7d77f445u32,
        stepped(0xe963a535u32) == 0x565aa786u32,
        stepped(0x9e6495a3u32) == 0x4f4196c7u32,
        stepped(0x0edb8832u32) == 0xc8d98a08u32,
        stepped(0x79dcb8a4u32) == 0xd1c2bb49u32,
        stepped(0xe0d5e91eu32) == 0xfaefe88au32,
        stepped(0x97d2d988u32) == 0xe3f4d9cbu32,
        stepped(0x09b64c2bu32) == 0xacb54f0cu32,
        stepped(0x7eb17cbdu32) == 0xb5ae7e4du32,
        stepped(0xe7b82d07u32) == 0x9e832d8eu32,
        stepped(0x90bf1d91u32) == 0x87981ccfu32,
        stepped(0x1db71064u32) == 0x4ac21251u32,
        stepped(0x6ab020f2u32) == 0x53d92310u32,
        stepped(0xf3b97148u32) == 0x78f470d3u32,
        stepped(0x84be41deu32) == 0x61ef4192u32,
        stepped(0x1adad47du32) == 0x2eaed755u32,
        stepped(0x6ddde4ebu32) == 0x37b5e614u32,
        stepped(0xf4d4b551u32) == 0x1c98b5d7u32,
        stepped(0x83d385c7u32) == 0x05838496u32,
        stepped(0x136c9856u32) == 0x821b9859u32,
        stepped(0x646ba8c0u32) == 0x9b00a918u32,
        stepped(0xfd62f97au32) == 0xb02dfadbu32,
        stepped(0x8a65c9ecu32) == 0xa936cb9au32,
        stepped(0x14015c4fu32) == 0xe6775d5du32,
        stepped(0x63066cd9u32) == 0xff6c6c1cu32,
        stepped(0xfa0f3d63u32) == 0xd4413fdfu32,
        stepped(0x8d080df5u32) == 0xcd5a0e9eu32,
        stepped(0x3b6e20c8u32) == 0x958424a2u32,
        stepped(0x4c69105eu32) == 0x8c9f15e3u32,
        stepped(0xd56041e4u32) == 0xa7b24620u32,
        stepped(0xa2677172u32) == 0xbea97761u32,
        stepped(0x3c03e4d1u32) == 0xf1e8e1a6u32,
        stepped(0x4b04d447u32) == 0xe8f3d0e7u32,
        stepped(0xd20d85fdu32) == 0xc3de8324u32,
        stepped(0xa50ab56bu32) == 0xdac5b265u32,
        stepped(0x35b5a8fau32) == 0x5d5daeaau32,
        stepped(0x42b2986cu32) == 0x44469febu32,
        stepped(0xdbbbc9d6u32) == 0x6f6bcc28u32,
        stepped(0xacbcf940u32) == 0x7670fd69u32,
        stepped(0x32d86ce3u32) == 0x39316baeu32,
        stepped(0x45df5c75u32) == 0x202a5aefu32,
        stepped(0xdcd60dcfu32) == 0x0b07092cu32,
        stepped(0xabd13d59u32) == 0x121c386du32,
        stepped(0x26d930acu32) == 0xdf4636f3u32,
        stepped(0x51de003au32) == 0xc65d07b2u32,
        stepped(0xc8d75180u32) == 0xed705471u32,
        stepped(0xbfd06116u32) == 0xf46b6530u32,
        stepped(0x21b4f4b5u32) == 0xbb2af3f7u32,
        stepped(0x56b3c423u32) == 0xa231c2b6u32,
        stepped(0xcfba9599u32) == 0x891c9175u32,
        stepped(0xb8bda50fu32) == 0x9007a034u32,
        stepped(0x2802b89eu32) == 0x179fbcfbu32,
        stepped(0x5f058808u32) == 0x0e848dbau32,
        stepped(0xc60cd9b2u32) == 0x25a9de79u32,
        stepped(0xb10be924u32) == 0x3cb2ef38u32,
        stepped(0x2f6f7c87u32) == 0x73f379ffu32,
        stepped(0x58684c11u32) == 0x6ae848beu32,
        stepped(0xc1611dabu32) == 0x41c51b7du32,
        stepped(0xb6662d3du32) == 0x58de2a3cu32,
        stepped(0x76dc4190u32) == 0xf0794f05u32,
        stepped(0x01db7106u32) == 0xe9627e44u32,
        stepped(0x98d220bcu32) == 0xc24f2d87u32,
        stepped(0xefd5102au32) == 0xdb541cc6u32,
        stepped(0x71b18589u32) == 0x94158a01u32,
        stepped(0x06b6b51fu32) == 0x8d0ebb40u32,
        stepped(0x9fbfe4a5u32) == 0xa623e883u32,
        stepped(0xe8b8d433u32) == 0xbf38d9c2u32,
        stepped(0x7807c9a2u32) == 0x38a0c50du32,
        stepped(0x0f00f934u32) == 0x21bbf44cu32,
        stepped(0x9609a88eu32) == 0x0a96a78fu32,
        stepped(0xe10e9818u32) == 0x138d96ceu32,
        stepped(0x7f6a0dbbu32) == 0x5ccc0009u32,
        stepped(0x086d3d2du32) == 0x45d73148u32,
        stepped(0x91646c97u32) == 0x6efa628bu32,
        stepped(0xe6635c01u32) == 0x77e153cau32,
        stepped(0x6b6b51f4u32) == 0xbabb5d54u32,
        stepped(0x1c6c6162u32) == 0xa3a06c15u32,
        stepped(0x856530d8u32) == 0x888d3fd6u32,
        stepped(0xf262004eu32) == 0x91960e97u32,
        stepped(0x6c0695edu32) == 0xded79850u32,
        stepped(0x1b01a57bu32) == 0xc7cca911u32,
        stepped(0x8208f4c1u32) == 0xece1fad2u32,
        stepped(0xf50fc457u32) == 0xf5facb93u32,
        stepped(0x65b0d9c6u32) == 0x7262d75cu32,
        stepped(0x12b7e950u32) == 0x6b79e61du32,
        stepped(0x8bbeb8eau32) == 0x4054b5deu32,
        stepped(0xfcb9887cu32) == 0x594f849fu32,
        stepped(0x62dd1ddfu32) == 0x160e1258u32,
        stepped(0x15da2d49u32) == 0x0f152319u32,
        stepped(0x8cd37cf3u32) == 0x243870dau32,
        stepped(0xfbd44c65u32) == 0x3d23419bu32,
        stepped(0x4db26158u32) == 0x65fd6ba7u32,
        stepped(0x3ab551ceu32) == 0x7ce65ae6u32,
        stepped(0xa3bc0074u32) == 0x57cb0925u32,
        stepped(0xd4bb30e2u32) == 0x4ed03864u32,
        stepped(0x4adfa541u32) == 0x0191aea3u32,
        stepped(0x3dd895d7u32) == 0x188a9fe2u32,
        stepped(0xa4d1c46du32) == 0x33a7cc21u32,
        stepped(0xd3d6f4fbu32) == 0x2abcfd60u32,
        stepped(0x4369e96au32) == 0xad24e1afu32,
        stepped(0x346ed9fcu32) == 0xb43fd0eeu32,
        stepped(0xad678846u32) == 0x9f12832du32,
        stepped(0xda60b8d0u32) == 0x8609b26cu32,
        stepped(0x44042d73u32) == 0xc94824abu32,
        stepped(0x33031de5u32) == 0xd05315eau32,
        stepped(0xaa0a4c5fu32) == 0xfb7e4629u32,
        stepped(0xdd0d7cc9u32) == 0xe2657768u32,
        stepped(0x5005713cu32) == 0x2f3f79f6u32,
        stepped(0x270241aau32) == 0x362448b7u32,
        stepped(0xbe0b1010u32) == 0x1d091b74u32,
        stepped(0xc90c2086u32) == 0x04122a35u32,
        stepped(0x5768b525u32) == 0x4b53bcf2u32,
        stepped(0x206f85b3u32) == 0x52488db3u32,
        stepped(0xb966d409u32) == 0x7965de70u32,
        stepped(0xce61e49fu32) == 0x607eef31u32,
        stepped(0x5edef90eu32) == 0xe7e6f3feu32,
        stepped(0x29d9c998u32) == 0xfefdc2bfu32,
        stepped(0xb0d09822u32) == 0xd5d0917cu32,
        stepped(0xc7d7a8b4u32) == 0xcccba03du32,
        stepped(0x59b33d17u32) == 0x838a36fau32,
        stepped(0x2eb40d81u32) == 0x9a9107bbu32,
        stepped(0xb7bd5c3bu32) == 0xb1bc5478u32,
        stepped(0xc0ba6cadu32) == 0xa8a76539u32,
        stepped(0xedb88320u32) == 0x3b83984bu32,
        stepped(0x9abfb3b6u32) == 0x2298a90au32,
        stepped(0x03b6e20cu32) == 0x09b5fac9u32,
        stepped(0x74b1d29au32) == 0x10aecb88u32,
        stepped(0xead54739u32) == 0x5fef5d4fu32,
        stepped(0x9dd277afu32) == 0x46f46c0eu32,
        stepped(0x04db2615u32) == 0x6dd93fcdu32,
        stepped(0x73dc1683u32) == 0x74c20e8cu32,
        stepped(0xe3630b12u32) == 0xf35a1243u32,
        stepped(0x94643b84u32) == 0xea412302u32,
        stepped(0x0d6d6a3eu32) == 0xc16c70c1u32,
        stepped(0x7a6a5aa8u32) == 0xd8774180u32,
        stepped(0xe40ecf0bu32) == 0x9736d747u32,
        stepped(0x9309ff9du32) == 0x8e2de606u32,
        stepped(0x0a00ae27u32) == 0xa500b5c5u32,
        stepped(0x7d079eb1u32) == 0xbc1b8484u32,
        stepped(0xf00f9344u32) == 0x71418a1au32,
        stepped(0x8708a3d2u32) == 0x685abb5bu32,
        stepped(0x1e01f268u32) == 0x4377e898u32,
        stepped(0x6906c2feu32) == 0x5a6cd9d9u32,
        stepped(0xf762575du32) == 0x152d4f1eu32,
        stepped(0x806567cbu32) == 0x0c367e5fu32,
        stepped(0x196c3671u32) == 0x271b2d9cu32,
        stepped(0x6e6b06e7u32) == 0x3e001cddu32,
        stepped(0xfed41b76u32) == 0xb9980012u32,
        stepped(0x89d32be0u32) == 0xa0833153u32,
        stepped(0x10da7a5au32) == 0x8bae6290u32,
        stepped(0x67dd4accu32) == 0x92b553d1u32,
        stepped(0xf9b9df6fu32) == 0xddf4c516u32,
        stepped(0x8ebeeff9u32) == 0xc4eff457u32,
        stepped(0x17b7be43u32) == 0xefc2a794u32,
        stepped(0x60b08ed5u32) == 0xf6d996d5u32,
        stepped(0xd6d6a3e8u32) == 0xae07bce9u32,
        stepped(0xa1d1937eu32) == 0xb71c8da8u32,
        stepped(0x38d8c2c4u32) == 0x9c31de6bu32,
        stepped(0x4fdff252u32) == 0x852aef2au32,
        stepped(0xd1bb67f1u32) == 0xca6b79edu32,
        stepped(0xa6bc5767u32) == 0xd37048acu32,
        stepped(0x3fb506ddu32) == 0xf85d1b6fu32,
        stepped(0x48b2364bu32) == 0xe1462a2eu32,
        stepped(0xd80d2bdau32) == 0x66de36e1u32,
        stepped(0xaf0a1b4cu32) == 0x7fc507a0u32,
        stepped(0x36034af6u32) == 0x54e85463u32,
        stepped(0x41047a60u32) == 0x4df36522u32,
        stepped(0xdf60efc3u32) == 0x02b2f3e5u32,
        stepped(0xa867df55u32) == 0x1ba9c2a4u32,
        stepped(0x316e8eefu32) == 0x30849167u32,
        stepped(0x4669be79u32) == 0x299fa026u32,
        stepped(0xcb61b38cu32) == 0xe4c5aeb8u32,
        stepped(0xbc66831au32) == 0xfdde9ff9u32,
        stepped(0x256fd2a0u32) == 0xd6f3cc3au32,
        stepped(0x5268e236u32) == 0xcfe8fd7bu32,
        stepped(0xcc0c7795u32) == 0x80a96bbcu32,
        stepped(0xbb0b4703u32) == 0x99b25afdu32,
        stepped(0x220216b9u32) == 0xb29f093eu32,
        stepped(0x5505262fu32) == 0xab84387fu32,
        stepped(0xc5ba3bbeu32) == 0x2c1c24b0u32,
        stepped(0xb2bd0b28u32) == 0x350715f1u32,
        stepped(0x2bb45a92u32) == 0x1e2a4632u32,
        stepped(0x5cb36a04u32) == 0x07317773u32,
        stepped(0xc2d7ffa7u32) == 0x4870e1b4u32,
        stepped(0xb5d0cf31u32) == 0x516bd0f5u32,
        stepped(0x2cd99e8bu32) == 0x7a468336u32,
        stepped(0x5bdeae1du32) == 0x635db277u32,
        stepped(0x9b64c2b0u32) == 0xcbfad74eu32,
        stepped(0xec63f226u32) == 0xd2e1e60fu32,
        stepped(0x756aa39cu32) == 0xf9ccb5ccu32,
        stepped(0x026d930au32) == 0xe0d7848du32,
        stepped(0x9c0906a9u32) == 0xaf96124au32,
        stepped(0xeb0e363fu32) == 0xb68d230bu32,
        stepped(0x72076785u32) == 0x9da070c8u32,
        stepped(0x05005713u32) == 0x84bb4189u32,
        stepped(0x95bf4a82u32) == 0x03235d46u32,
        stepped(0xe2b87a14u32) == 0x1a386c07u32,
        stepped(0x7bb12baeu32) == 0x31153fc4u32,
        stepped(0x0cb61b38u32) == 0x280e0e85u32,
        stepped(0x92d28e9bu32) == 0x674f9842u32,
        stepped(0xe5d5be0du32) == 0x7e54a903u32,
        stepped(0x7cdcefb7u32) == 0x5579fac0u32,
        stepped(0x0bdbdf21u32) == 0x4c62cb81u32,
        stepped(0x86d3d2d4u32) == 0x8138c51fu32,
        stepped(0xf1d4e242u32) == 0x9823f45eu32,
        stepped(0x68ddb3f8u32) == 0xb30ea79du32,
        stepped(0x1fda836eu32) == 0xaa1596dcu32,
        stepped(0x81be16cdu32) == 0xe554001bu32,
        stepped(0xf6b9265bu32) == 0xfc4f315au32,
        stepped(0x6fb077e1u32) == 0xd7626299u32,
        stepped(0x18b74777u32) == 0xce7953d8u32,
        stepped(0x88085ae6u32) == 0x49e14f17u32,
        stepped(0xff0f6a70u32) == 0x50fa7e56u32,
        stepped(0x66063bcau32) == 0x7bd72d95u32,
        stepped(0x11010b5cu32) == 0x62cc1cd4u32,
        stepped(0x8f659effu32) == 0x2d8d8a13u32,
        stepped(0xf862ae69u32) == 0x3496bb52u32,
        stepped(0x616bffd3u32) == 0x1fbbe891u32,
        stepped(0x166ccf45u32) == 0x06a0d9d0u32,
        stepped(0xa00ae278u32) == 0x5e7ef3ecu32,
        stepped(0xd70dd2eeu32) == 0x4765c2adu32,
        stepped(0x4e048354u32) == 0x6c48916eu32,
        stepped(0x3903b3c2u32) == 0x7553a02fu32,
        stepped(0xa7672661u32) == 0x3a1236e8u32,
        stepped(0xd06016f7u32) == 0x230907a9u32,
        stepped(0x4969474du32) == 0x0824546au32,
        stepped(0x3e6e77dbu32) == 0x113f652bu32,
        stepped(0xaed16a4au32) == 0x96a779e4u32,
        stepped(0xd9d65adcu32) == 0x8fbc48a5u32,
        stepped(0x40df0b66u32) == 0xa4911b66u32,
        stepped(0x37d83bf0u32) == 0xbd8a2a27u32,
        stepped(0xa9bcae53u32) == 0xf2cbbce0u32,
        stepped(0xdebb9ec5u32) == 0xebd08da1u32,
        stepped(0x47b2cf7fu32) == 0xc0fdde62u32,
        stepped(0x30b5ffe9u32) == 0xd9e6ef23u32,
        stepped(0xbdbdf21cu32) == 0x14bce1bdu32,
        stepped(0xcabac28au32) == 0x0da7d0fcu32,
        stepped(0x53b39330u32) == 0x268a833fu32,
        stepped(0x24b4a3a6u32) == 0x3f91b27eu32,
        stepped(0xbad03605u32) == 0x70d024b9u32,
        stepped(0xcdd70693u32) == 0x69cb15f8u32,
        stepped(0x54de5729u32) == 0x42e6463bu32,
        stepped(0x23d967bfu32) == 0x5bfd777au32,
        stepped(0xb3667a2eu32) == 0xdc656bb5u32,
        stepped(0xc4614ab8u32) == 0xc57e5af4u32,
        stepped(0x5d681b02u32) == 0xee530937u32,
        stepped(0x2a6f2b94u32) == 0xf7483876u32,
        stepped(0xb40bbe37u32) == 0xb809aeb1u32,
        stepped(0xc30c8ea1u32) == 0xa1129ff0u32,
        stepped(0x5a05df1bu32) == 0x8a3fcc33u32,
        stepped(0x2d02ef8du32) == 0x9324fd72u32,
{
}

proof fn lemma_row_2(i: int)
    requires
        0 <= i < 256,
    ensures
        CRC32_TABLE[2][i] == shift_byte(CRC32_TABLE[1][i]),
{
    assert(CRC32_TABLE[2][i] == stepped(CRC32_TABLE[1][i])) by {
        lemma_byte_cases(i);
        lemma_steps_2();
    }
    reveal(stepped);
}

/// What each entry of table 1 becomes over a zero byte.
proof fn lemma_steps_2()
    by (bit_vector)
    ensures
        stepped(0x00000000u32) == 0x00000000u32,
        stepped(0x191b3141u32) == 0x01c26a37u32,
        stepped(0x32366282u32) == 0x0384d46eu32,
        stepped(0x2b2d53c3u32) == 0x0246be59u32,
        stepped(0x646cc504u32) == 0x0709a8dcu32,
        stepped(0x7d77f445u32) == 0x06cbc2ebu32,
        stepped(0x565aa786u32) == 0x048d7cb2u32,
        stepped(0x4f4196c7u32) == 0x054f1685u32,
        stepped(0xc8d98a08u32) == 0x0e1351b8u32,
        stepped(0xd1c2bb49u32) == 0x0fd13b8fu32,
        stepped(0xfaefe88au32) == 0x0d9785d6u32,
        stepped(0xe3f4d9cbu32) == 0x0c55efe1u32,
        stepped(0xacb54f0cu32) == 0x091af964u32,
        stepped(0xb5ae7e4du32) == 0x08d89353u32,
        stepped(0x9e832d8eu32) == 0x0a9e2d0au32,
        stepped(0x87981ccfu32) == 0x0b5c473du32,
        stepped(0x4ac21251u32) == 0x1c26a370u32,
        stepped(0x53d92310u32) == 0x1de4c947u32,
        stepped(0x78f470d3u32) == 0x1fa2771eu32,
        stepped(0x61ef4192u32) == 0x1e601d29u32,
        stepped(0x2eaed755u32) == 0x1b2f0bacu32,
        stepped(0x37b5e614u32) == 0x1aed619bu32,
        stepped(0x1c98b5d7u32) == 0x18abdfc2u32,
        stepped(0x05838496u32) == 0x1969b5f5u32,
        stepped(0x821b9859u32) == 0x1235f2c8u32,
        stepped(0x9b00a918u32) == 0x13f798ffu32,
        stepped(0xb02dfadbu32) == 0x11b126a6u32,
        stepped(0xa936cb9au32) == 0x10734c91u32,
        stepped(0xe6775d5du32) == 0x153c5a14u32,
        stepped(0xff6c6c1cu32) == 0x14fe3023u32,
        stepped(0xd4413fdfu32) == 0x16b88e7au32,
        stepped(0xcd5a0e9eu32) == 0x177ae44du32,
        stepped(0x958424a2u32) == 0x384d46e0u32,
        stepped(0x8c9f15e3u32) == 0x398f2cd7u32,
        stepped(0xa7b24620u32) == 0x3bc9928eu32,
        stepped(0xbea97761u32) == 0x3a0bf8b9u32,
        stepped(0xf1e8e1a6u32) == 0x3f44ee3cu32,
        stepped(0xe8f3d0e7u32) == 0x3e86840bu32,
        stepped(0xc3de8324u32) == 0x3cc03a52u32,
        stepped(0xdac5b265u32) == 0x3d025065u32,
        stepped(0x5d5daeaau32) == 0x365e1758u32,
        stepped(0x44469febu32) == 0x379c7d6fu32,
        stepped(0x6f6bcc28u32) == 0x35dac336u32,
        stepped(0x7670fd69u32) == 0x3418a901u32,
        stepped(0x39316baeu32) == 0x3157bf84u32,
        stepped(0x202a5aefu32) == 0x3095d5b3u32,
        stepped(0x0b07092cu32) == 0x32d36beau32,
        stepped(0x121c386du32) == 0x331101ddu32,
        stepped(0xdf4636f3u32) == 0x246be590u32,
        stepped(0xc65d07b2u32) == 0x25a98fa7u32,
        stepped(0xed705471u32) == 0x27ef31feu32,
        stepped(0xf46b6530u32) == 0x262d5bc9u32,
        stepped(0xbb2af3f7u32) == 0x23624d4cu32,
        stepped(0xa231c2b6u32) == 0x22a0277bu32,
        stepped(0x891c9175u32) == 0x20e69922u32,
        stepped(0x9007a034u32) == 0x2124f315u32,
        stepped(0x179fbcfbu32) == 0x2a78b428u32,
        stepped(0x0e848dbau32) == 0x2bbade1fu32,
        stepped(0x25a9de79u32) == 0x29fc6046u32,
        stepped(0x3cb2ef38u32) == 0x283e0a71u32,
        stepped(0x73f379ffu32) == 0x2d711cf4u32,
        stepped(0x6ae848beu32) == 0x2cb376c3u32,
        stepped(0x41c51b7du32) == 0x2ef5c89au32,
        stepped(0x58de2a3cu32) == 0x2f37a2adu32,
        stepped(0xf0794f05u32) == 0x709a8dc0u32,
        stepped(0xe9627e44u32) == 0x7158e7f7u32,
        stepped(0xc24f2d87u32) == 0x731e59aeu32,
        stepped(0xdb541cc6u32) == 0x72dc3399u32,
        stepped(0x94158a01u32) == 0x7793251cu32,
        stepped(0x8d0ebb40u32) == 0x76514f2bu32,
        stepped(0xa623e883u32) == 0x7417f172u32,
        stepped(0xbf38d9c2u32) == 0x75d59b45u32,
        stepped(0x38a0c50du32) == 0x7e89dc78u32,
        stepped(0x21bbf44cu32) == 0x7f4bb64fu32,
        stepped(0x0a96a78fu32) == 0x7d0d0816u32,
        stepped(0x138d96ceu32) == 0x7ccf6221u32,
        stepped(0x5ccc0009u32) == 0x798074a4u32,
        stepped(0x45d73148u32) == 0x78421e93u32,
        stepped(0x6efa628bu32) == 0x7a04a0cau32,
        stepped(0x77e153cau32) == 0x7bc6cafdu32,
        stepped(0xbabb5d54u32) == 0x6cbc2eb0u32,
        stepped(0xa3a06c15u32) == 0x6d7e4487u32,
        stepped(0x888d3fd6u32) == 0x6f38fadeu32,
        stepped(0x91960e97u32) == 0x6efa90e9u32,
        stepped(0xded79850u32) == 0x6bb5866cu32,
        stepped(0xc7cca911u32) == 0x6a77ec5bu32,
        stepped(0xece1fad2u32) == 0x68315202u32,
        stepped(0xf5facb93u32) == 0x69f33835u32,
        stepped(0x7262d75cu32) == 0x62af7f08u32,
        stepped(0x6b79e61du32) == 0x636d153fu32,
        stepped(0x4054b5deu32) == 0x612bab66u32,
        stepped(0x594f849fu32) == 0x60e9c151u32,
        stepped(0x160e1258u32) == 0x65a6d7d4u32,
        stepped(0x0f152319u32) == 0x6464bde3u32,
        stepped(0x243870dau32) == 0x662203bau32,
        stepped(0x3d23419bu32) == 0x67e0698du32,
        stepped(0x65fd6ba7u32) == 0x48d7cb20u32,
        stepped(0x7ce65ae6u32) == 0x4915a117u32,
        stepped(0x57cb0925u32) == 0x4b531f4eu32,
        stepped(0x4ed03864u32) == 0x4a917579u32,
        stepped(0x0191aea3u32) == 0x4fde63fcu32,
        stepped(0x188a9fe2u32) == 0x4e1c09cbu32,
        stepped(0x33a7cc21u32) == 0x4c5ab792u32,
        stepped(0x2abcfd60u32) == 0x4d98dda5u32,
        stepped(0xad24e1afu32) == 0x46c49a98u32,
        stepped(0xb43fd0eeu32) == 0x4706f0afu32,
        stepped(0x9f12832du32) == 0x45404ef6u32,
        stepped(0x8609b26cu32) == 0x448224c1u32,
        stepped(0xc94824abu32) == 0x41cd3244u32,
        stepped(0xd05315eau32) == 0x400f5873u32,
        stepped(0xfb7e4629u32) == 0x4249e62au32,
        stepped(0xe2657768u32) == 0x438b8c1du32,
        stepped(0x2f3f79f6u32) == 0x54f16850u32,
        stepped(0x362448b7u32) == 0x55330267u32,
        stepped(0x1d091b74u32) == 0x5775bc3eu32,
        stepped(0x04122a35u32) == 0x56b7d609u32,
        stepped(0x4b53bcf2u32) == 0x53f8c08cu32,
        stepped(0x52488db3u32) == 0x523aaabbu32,
        stepped(0x7965de70u32) == 0x507c14e2u32,
        stepped(0x607eef31u32) == 0x51be7ed5u32,
        stepped(0xe7e6f3feu32) == 0x5ae239e8u32,
        stepped(0xfefdc2bfu32) == 0x5b2053dfu32,
        stepped(0xd5d0917cu32) == 0x5966ed86u32,
        stepped(0xcccba03du32) == 0x58a487b1u32,
        stepped(0x838a36fau32) == 0x5deb9134u32,
        stepped(0x9a9107bbu32) == 0x5c29fb03u32,
        stepped(0xb1bc5478u32) == 0x5e6f455au32,
        stepped(0xa8a76539u32) == 0x5fad2f6du32,
        stepped(0x3b83984bu32) == 0xe1351b80u32,
        stepped(0x2298a90au32) == 0xe0f771b7u32,
        stepped(0x09b5fac9u32) == 0xe2b1cfeeu32,
        stepped(0x10aecb88u32) == 0xe373a5d9u32,
        stepped(0x5fef5d4fu32) == 0xe63cb35cu32,
        stepped(0x46f46c0eu32) == 0xe7fed96bu32,
        stepped(0x6dd93fcdu32) == 0xe5b86732u32,
        stepped(0x74c20e8cu32) == 0xe47a0d05u32,
        stepped(0xf35a1243u32) == 0xef264a38u32,
        stepped(0xea412302u32) == 0xeee4200fu32,
        stepped(0xc16c70c1u32) == 0xeca29e56u32,
        stepped(0xd8774180u32) == 0xed60f461u32,
        stepped(0x9736d747u32) == 0xe82fe2e4u32,
        stepped(0x8e2de606u32) == 0xe9ed88d3u32,
        stepped(0xa500b5c5u32) == 0xebab368au32,
        stepped(0xbc1b8484u32) == 0xea695cbdu32,
        stepped(0x71418a1au32) == 0xfd13b8f0u32,
        stepped(0x685abb5bu32) == 0xfcd1d2c7u32,
        stepped(0x4377e898u32) == 0xfe976c9eu32,
        stepped(0x5a6cd9d9u32) == 0xff5506a9u32,
        stepped(0x152d4f1eu32) == 0xfa1a102cu32,
        stepped(0x0c367e5fu32) == 0xfbd87a1bu32,
        stepped(0x271b2d9cu32) == 0xf99ec442u32,
        stepped(0x3e001cddu32) == 0xf85cae75u32,
        stepped(0xb9980012u32) == 0xf300e948u32,
        stepped(0xa0833153u32) == 0xf2c2837fu32,
        stepped(0x8bae6290u32) == 0xf0843d26u32,
        stepped(0x92b553d1u32) == 0xf1465711u32,
        stepped(0xddf4c516u32) == 0xf4094194u32,
        stepped(0xc4eff457u32) == 0xf5cb2ba3u32,
        stepped(0xefc2a794u32) == 0xf78d95fau32,
        stepped(0xf6d996d5u32) == 0xf64fffcdu32,
        stepped(0xae07bce9u32) == 0xd9785d60u32,
        stepped(0xb71c8da8u32) == 0xd8ba3757u32,
        stepped(0x9c31de6bu32) == 0xdafc890eu32,
        stepped(0x852aef2au32) == 0xdb3ee339u32,
        stepped(0xca6b79edu32) == 0xde71f5bcu32,
        stepped(0xd37048acu32) == 0xdfb39f8bu32,
        stepped(0xf85d1b6fu32) == 0xddf521d2u32,
        stepped(0xe1462a2eu32) == 0xdc374be5u32,
        stepped(0x66de36e1u32) == 0xd76b0cd8u32,
        stepped(0x7fc507a0u32) == 0xd6a966efu32,
        stepped(0x54e85463u32) == 0xd4efd8b6u32,
        stepped(0x4df36522u32) == 0xd52db281u32,
        stepped(0x02b2f3e5u32) == 0xd062a404u32,
        stepped(0x1ba9c2a4u32) == 0xd1a0ce33u32,
        stepped(0x30849167u32) == 0xd3e6706au32,
        stepped(0x299fa026u32) == 0xd2241a5du32,
        stepped(0xe4c5aeb8u32) == 0xc55efe10u32,
        stepped(0xfdde9ff9u32) == 0xc49c9427u32,
        stepped(0xd6f3cc3au32) == 0xc6da2a7eu32,
        stepped(0xcfe8fd7bu32) == 0xc7184049u32,
        stepped(0x80a96bbcu32) == 0xc25756ccu32,
        stepped(0x99b25afdu32) == 0xc3953cfbu32,
        stepped(0xb29f093eu32) == 0xc1d382a2u32,
        stepped(0xab84387fu32) == 0xc011e895u32,
        stepped(0x2c1c24b0u32) == 0xcb4dafa8u32,
        stepped(0x350715f1u32) == 0xca8fc59fu32,
        stepped(0x1e2a4632u32) == 0xc8c97bc6u32,
        stepped(0x07317773u32) == 0xc90b11f1u32,
        stepped(0x4870e1b4u32) == 0xcc440774u32,
        stepped(0x516bd0f5u32) == 0xcd866d43u32,
        stepped(0x7a468336u32) == 0xcfc0d31au32,
        stepped(0x635db277u32) == 0xce02b92du32,
        stepped(0xcbfad74eu32) == 0x91af9640u32,
        stepped(0xd2e1e60fu32) == 0x906dfc77u32,
        stepped(0xf9ccb5ccu32) == 0x922b422eu32,
        stepped(0xe0d7848du32) == 0x93e92819u32,
        stepped(0xaf96124au32) == 0x96a63e9cu32,
        stepped(0xb68d230bu32) == 0x976454abu32,
        stepped(0x9da070c8u32) == 0x9522eaf2u32,
        stepped(0x84bb4189u32) == 0x94e080c5u32,
        stepped(0x03235d46u32) == 0x9fbcc7f8u32,
        stepped(0x1a386c07u32) == 0x9e7eadcfu32,
        stepped(0x31153fc4u32) == 0x9c381396u32,
        stepped(0x280e0e85u32) == 0x9dfa79a1u32,
        stepped(0x674f9842u32) == 0x98b56f24u32,
        stepped(0x7e54a903u32) == 0x99770513u32,
        stepped(0x5579fac0u32) == 0x9b31bb4au32,
        stepped(0x4c62cb81u32) == 0x9af3d17du32,
        stepped(0x8138c51fu32) == 0x8d893530u32,
        stepped(0x9823f45eu32) == 0x8c4b5f07u32,
        stepped(0xb30ea79du32) == 0x8e0de15eu32,
        stepped(0xaa1596dcu32) == 0x8fcf8b69u32,
        stepped(0xe554001bu32) == 0x8a809decu32,
        stepped(0xfc4f315au32) == 0x8b42f7dbu32,
        stepped(0xd7626299u32) == 0x89044982u32,
        stepped(0xce7953d8u32) == 0x88c623b5u32,
        stepped(0x49e14f17u32) == 0x839a6488u32,
        stepped(0x50fa7e56u32) == 0x82580ebfu32,
        stepped(0x7bd72d95u32) == 0x801eb0e6u32,
        stepped(0x62cc1cd4u32) == 0x81dcdad1u32,
        stepped(0x2d8d8a13u32) == 0x8493cc54u32,
        stepped(0x3496bb52u32) == 0x8551a663u32,
        stepped(0x1fbbe891u32) == 0x8717183au32,
        stepped(0x06a0d9d0u32) == 0x86d5720du32,
        stepped(0x5e7ef3ecu32) == 0xa9e2d0a0u32,
        stepped(0x4765c2adu32) == 0xa820ba97u32,
        stepped(0x6c48916eu32) == 0xaa6604ceu32,
        stepped(0x7553a02fu32) == 0xaba46ef9u32,
        stepped(0x3a1236e8u32) == 0xaeeb787cu32,
        stepped(0x230907a9u32) == 0xaf29124bu32,
        stepped(0x0824546au32) == 0xad6fac12u32,
        stepped(0x113f652bu32) == 0xacadc625u32,
        stepped(0x96a779e4u32) == 0xa7f18118u32,
        stepped(0x8fbc48a5u32) == 0xa633eb2fu32,
        stepped(0xa4911b66u32) == 0xa4755576u32,
        stepped(0xbd8a2a27u32) == 0xa5b73f41u32,
        stepped(0xf2cbbce0u32) == 0xa0f829c4u32,
        stepped(0xebd08da1u32) == 0xa13a43f3u32,
        stepped(0xc0fdde62u32) == 0xa37cfdaau32,
        stepped(0xd9e6ef23u32) == 0xa2be979du32,
        stepped(0x14bce1bdu32) == 0xb5c473d0u32,
        stepped(0x0da7d0fcu32) == 0xb40619e7u32,
        stepped(0x268a833fu32) == 0xb640a7beu32,
        stepped(0x3f91b27eu32) == 0xb782cd89u32,
        stepped(0x70d024b9u32) == 0xb2cddb0cu32,
        stepped(0x69cb15f8u32) == 0xb30fb13bu32,
        stepped(0x42e6463bu32) == 0xb1490f62u32,
        stepped(0x5bfd777au32) == 0xb08b6555u32,
        stepped(0xdc656bb5u32) == 0xbbd72268u32,
        stepped(0xc57e5af4u32) == 0xba15485fu32,
        stepped(0xee530937u32) == 0xb853f606u32,
        stepped(0xf7483876u32) == 0xb9919c31u32,
        stepped(0xb809aeb1u32) == 0xbcde8ab4u32,
        stepped(0xa1129ff0u32) == 0xbd1ce083u32,
        stepped(0x8a3fcc33u32) == 0xbf5a5edau32,
        stepped(0x9324fd72u32) == 0xbe9834edu32,
{
}

proof fn lemma_row_3(i: int)
    requires
        0 <= i < 256,
    ensures
        CRC32_TABLE[3][i] == shift_byte(CRC32_TABLE[2][i]),
{
    assert(CRC32_TABLE[3][i] == stepped(CRC32_TABLE[2][i])) by {
        lemma_byte_cases(i);
        lemma_steps_3();
    }
    reveal(stepped);
}

/// What each entry of table 2 becomes over a zero byte.
proof fn lemma_steps_3()
    by (bit_vector)
    ensures
        stepped(0x00000000u32) == 0x00000000u32,
        stepped(0x01c26a37u32) == 0xb8bc6765u32,
        stepped(0x0384d46eu32) == 0xaa09c88bu32,
        stepped(0x0246be59u32) == 0x12b5afeeu32,
        stepped(0x0709a8dcu32) == 0x8f629757u32,
        stepped(0x06cbc2ebu32) == 0x37def032u32,
        stepped(0x048d7cb2u32) == 0x256b5fdcu32,
        stepped(0x054f1685u32) == 0x9dd738b9u32,
        stepped(0x0e1351b8u32) == 0xc5b428efu32,
        stepped(0x0fd13b8fu32) == 0x7d084f8au32,
        stepped(0x0d9785d6u32) == 0x6fbde064u32,
        stepped(0x0c55efe1u32) == 0xd7018701u32,
        stepped(0x091af964u32) == 0x4ad6bfb8u32,
        stepped(0x08d89353u32) == 0xf26ad8ddu32,
        stepped(0x0a9e2d0au32) == 0xe0df7733u32,
        stepped(0x0b5c473du32) == 0x58631056u32,
        stepped(0x1c26a370u32) == 0x5019579fu32,
        stepped(0x1de4c947u32) == 0xe8a530fau32,
        stepped(0x1fa2771eu32) == 0xfa109f14u32,
        stepped(0x1e601d29u32) == 0x42acf871u32,
        stepped(0x1b2f0bacu32) == 0xdf7bc0c8u32,
        stepped(0x1aed619bu32) == 0x67c7a7adu32,
        stepped(0x18abdfc2u32) == 0x75720843u32,
        stepped(0x1969b5f5u32) == 0xcdce6f26u32,
        stepped(0x1235f2c8u32) == 0x95ad7f70u32,
        stepped(0x13f798ffu32) == 0x2d111815u32,
        stepped(0x11b126a6u32) == 0x3fa4b7fbu32,
        stepped(0x10734c91u32) == 0x8718d09eu32,
        stepped(0x153c5a14u32) == 0x1acfe827u32,
        stepped(0x14fe3023u32) == 0xa2738f42u32,
        stepped(0x16b88e7au32) == 0xb0c620acu32,
        stepped(0x177ae44du32) == 0x087a47c9u32,
        stepped(0x384d46e0u32) == 0xa032af3eu32,
        stepped(0x398f2cd7u32) == 0x188ec85bu32,
        stepped(0x3bc9928eu32) == 0x0a3b67b5u32,
        stepped(0x3a0bf8b9u32) == 0xb28700d0u32,
        stepped(0x3f44ee3cu32) == 0x2f503869u32,
        stepped(0x3e86840bu32) == 0x97ec5f0cu32,
        stepped(0x3cc03a52u32) == 0x8559f0e2u32,
        stepped(0x3d025065u32) == 0x3de59787u32,
        stepped(0x365e1758u32) == 0x658687d1u32,
        stepped(0x379c7d6fu32) == 0xdd3ae0b4u32,
        stepped(0x35dac336u32) == 0xcf8f4f5au32,
        stepped(0x3418a901u32) == 0x7733283fu32,
        stepped(0x3157bf84u32) == 0xeae41086u32,
        stepped(0x3095d5b3u32) == 0x525877e3u32,
        stepped(0x32d36beau32) == 0x40edd80du32,
        stepped(0x331101ddu32) == 0xf851bf68u32,
        stepped(0x246be590u32) == 0xf02bf8a1u32,
        stepped(0x25a98fa7u32) == 0x48979fc4u32,
        stepped(0x27ef31feu32) == 0x5a22302au32,
        stepped(0x262d5bc9u32) == 0xe29e574fu32,
        stepped(0x23624d4cu32) == 0x7f496ff6u32,
        stepped(0x22a0277bu32) == 0xc7f50893u32,
        stepped(0x20e69922u32) == 0xd540a77du32,
        stepped(0x2124f315u32) == 0x6dfcc018u32,
        stepped(0x2a78b428u32) == 0x359fd04eu32,
        stepped(0x2bbade1fu32) == 0x8d23b72bu32,
        stepped(0x29fc6046u32) == 0x9f9618c5u32,
        stepped(0x283e0a71u32) == 0x272a7fa0u32,
        stepped(0x2d711cf4u32) == 0xbafd4719u32,
        stepped(0x2cb376c3u32) == 0x0241207cu32,
        stepped(0x2ef5c89au32) == 0x10f48f92u32,
        stepped(0x2f37a2adu32) == 0xa848e8f7u32,
        stepped(0x709a8dc0u32) == 0x9b14583du32,
        stepped(0x7158e7f7u32) == 0x23a83f58u32,
        stepped(0x731e59aeu32) == 0x311d90b6u32,
        stepped(0x72dc3399u32) == 0x89a1f7d3u32,
        stepped(0x7793251cu32) == 0x1476cf6au32,
        stepped(0x76514f2bu32) == 0xaccaa80fu32,
        stepped(0x7417f172u32) == 0xbe7f07e1u32,
        stepped(0x75d59b45u32) == 0x06c36084u32,
        stepped(0x7e89dc78u32) == 0x5ea070d2u32,
        stepped(0x7f4bb64fu32) == 0xe61c17b7u32,
        stepped(0x7d0d0816u32) == 0xf4a9b859u32,
        stepped(0x7ccf6221u32) == 0x4c15df3cu32,
        stepped(0x798074a4u32) == 0xd1c2e785u32,
        stepped(0x78421e93u32) == 0x697e80e0u32,
        stepped(0x7a04a0cau32) == 0x7bcb2f0eu32,
        stepped(0x7bc6cafdu32) == 0xc377486bu32,
        stepped(0x6cbc2eb0u32) == 0xcb0d0fa2u32,
        stepped(0x6d7e4487u32) == 0x73b168c7u32,
        stepped(0x6f38fadeu32) == 0x6104c729u32,
        stepped(0x6efa90e9u32) == 0xd9b8a04cu32,
        stepped(0x6bb5866cu32) == 0x446f98f5u32,
        stepped(0x6a77ec5bu32) == 0xfcd3ff90u32,
        stepped(0x68315202u32) == 0xee66507eu32,
        stepped(0x69f33835u32) == 0x56da371bu32,
        stepped(0x62af7f08u32) == 0x0eb9274du32,
        stepped(0x636d153fu32) == 0xb6054028u32,
        stepped(0x612bab66u32) == 0xa4b0efc6u32,
        stepped(0x60e9c151u32) == 0x1c0c88a3u32,
        stepped(0x65a6d7d4u32) == 0x81dbb01au32,
        stepped(0x6464bde3u32) == 0x3967d77fu32,
        stepped(0x662203bau32) == 0x2bd27891u32,
        stepped(0x67e0698du32) == 0x936e1ff4u32,
        stepped(0x48d7cb20u32) == 0x3b26f703u32,
        stepped(0x4915a117u32) == 0x839a9066u32,
        stepped(0x4b531f4eu32) == 0x912f3f88u32,
        stepped(0x4a917579u32) == 0x299358edu32,
        stepped(0x4fde63fcu32) == 0xb4446054u32,
        stepped(0x4e1c09cbu32) == 0x0cf80731u32,
        stepped(0x4c5ab792u32) == 0x1e4da8dfu32,
        stepped(0x4d98dda5u32) == 0xa6f1cfbau32,
        stepped(0x46c49a98u32) == 0xfe92dfecu32,
        stepped(0x4706f0afu32) == 0x462eb889u32,
        stepped(0x45404ef6u32) == 0x549b1767u32,
        stepped(0x448224c1u32) == 0xec277002u32,
        stepped(0x41cd3244u32) == 0x71f048bbu32,
        stepped(0x400f5873u32) == 0xc94c2fdeu32,
        stepped(0x4249e62au32) == 0xdbf98030u32,
        stepped(0x438b8c1du32) == 0x6345e755u32,
        stepped(0x54f16850u32) == 0x6b3fa09cu32,
        stepped(0x55330267u32) == 0xd383c7f9u32,
        stepped(0x5775bc3eu32) == 0xc1366817u32,
        stepped(0x56b7d609u32) == 0x798a0f72u32,
        stepped(0x53f8c08cu32) == 0xe45d37cbu32,
        stepped(0x523aaabbu32) == 0x5ce150aeu32,
        stepped(0x507c14e2u32) == 0x4e54ff40u32,
        stepped(0x51be7ed5u32) == 0xf6e89825u32,
        stepped(0x5ae239e8u32) == 0xae8b8873u32,
        stepped(0x5b2053dfu32) == 0x1637ef16u32,
        stepped(0x5966ed86u32) == 0x048240f8u32,
        stepped(0x58a487b1u32) == 0xbc3e279du32,
        stepped(0x5deb9134u32) == 0x21e91f24u32,
        stepped(0x5c29fb03u32) == 0x99557841u32,
        stepped(0x5e6f455au32) == 0x8be0d7afu32,
        stepped(0x5fad2f6du32) == 0x335cb0cau32,
        stepped(0xe1351b80u32) == 0xed59b63bu32,
        stepped(0xe0f771b7u32) == 0x55e5d15eu32,
        stepped(0xe2b1cfeeu32) == 0x47507eb0u32,
        stepped(0xe373a5d9u32) == 0xffec19d5u32,
        stepped(0xe63cb35cu32) == 0x623b216cu32,
        stepped(0xe7fed96bu32) == 0xda874609u32,
        stepped(0xe5b86732u32) == 0xc832e9e7u32,
        stepped(0xe47a0d05u32) == 0x708e8e82u32,
        stepped(0xef264a38u32) == 0x28ed9ed4u32,
        stepped(0xeee4200fu32) == 0x9051f9b1u32,
        stepped(0xeca29e56u32) == 0x82e4565fu32,
        stepped(0xed60f461u32) == 0x3a58313au32,
        stepped(0xe82fe2e4u32) == 0xa78f0983u32,
        stepped(0xe9ed88d3u32) == 0x1f336ee6u32,
        stepped(0xebab368au32) == 0x0d86c108u32,
        stepped(0xea695cbdu32) == 0xb53aa66du32,
        stepped(0xfd13b8f0u32) == 0xbd40e1a4u32,
        stepped(0xfcd1d2c7u32) == 0x05fc86c1u32,
        stepped(0xfe976c9eu32) == 0x1749292fu32,
        stepped(0xff5506a9u32) == 0xaff54e4au32,
        stepped(0xfa1a102cu32) == 0x322276f3u32,
        stepped(0xfbd87a1bu32) == 0x8a9e1196u32,
        stepped(0xf99ec442u32) == 0x982bbe78u32,
        stepped(0xf85cae75u32) == 0x2097d91du32,
        stepped(0xf300e948u32) == 0x78f4c94bu32,
        stepped(0xf2c2837fu32) == 0xc048ae2eu32,
        stepped(0xf0843d26u32) == 0xd2fd01c0u32,
        stepped(0xf1465711u32) == 0x6a4166a5u32,
        stepped(0xf4094194u32) == 0xf7965e1cu32,
        stepped(0xf5cb2ba3u32) == 0x4f2a3979u32,
        stepped(0xf78d95fau32) == 0x5d9f9697u32,
        stepped(0xf64fffcdu32) == 0xe523f1f2u32,
        stepped(0xd9785d60u32) == 0x4d6b1905u32,
        stepped(0xd8ba3757u32) == 0xf5d77e60u32,
        stepped(0xdafc890eu32) == 0xe762d18eu32,
        stepped(0xdb3ee339u32) == 0x5fdeb6ebu32,
        stepped(0xde71f5bcu32) == 0xc2098e52u32,
        stepped(0xdfb39f8bu32) == 0x7ab5e937u32,
        stepped(0xddf521d2u32) == 0x680046d9u32,
        stepped(0xdc374be5u32) == 0xd0bc21bcu32,
        stepped(0xd76b0cd8u32) == 0x88df31eau32,
        stepped(0xd6a966efu32) == 0x3063568fu32,
        stepped(0xd4efd8b6u32) == 0x22d6f961u32,
        stepped(0xd52db281u32) == 0x9a6a9e04u32,
        stepped(0xd062a404u32) == 0x07bda6bdu32,
        stepped(0xd1a0ce33u32) == 0xbf01c1d8u32,
        stepped(0xd3e6706au32) == 0xadb46e36u32,
        stepped(0xd2241a5du32) == 0x15080953u32,
        stepped(0xc55efe10u32) == 0x1d724e9au32,
        stepped(0xc49c9427u32) == 0xa5ce29ffu32,
        stepped(0xc6da2a7eu32) == 0xb77b8611u32,
        stepped(0xc7184049u32) == 0x0fc7e174u32,
        stepped(0xc25756ccu32) == 0x9210d9cdu32,
        stepped(0xc3953cfbu32) == 0x2aacbea8u32,
        stepped(0xc1d382a2u32) == 0x38191146u32,
        stepped(0xc011e895u32) == 0x80a57623u32,
        stepped(0xcb4dafa8u32) == 0xd8c66675u32,
        stepped(0xca8fc59fu32) == 0x607a0110u32,
        stepped(0xc8c97bc6u32) == 0x72cfaefeu32,
        stepped(0xc90b11f1u32) == 0xca73c99bu32,
        stepped(0xcc440774u32) == 0x57a4f122u32,
        stepped(0xcd866d43u32) == 0xef189647u32,
        stepped(0xcfc0d31au32) == 0xfdad39a9u32,
        stepped(0xce02b92du32) == 0x45115eccu32,
        stepped(0x91af9640u32) == 0x764dee06u32,
        stepped(0x906dfc77u32) == 0xcef18963u32,
        stepped(0x922b422eu32) == 0xdc44268du32,
        stepped(0x93e92819u32) == 0x64f841e8u32,
        stepped(0x96a63e9cu32) == 0xf92f7951u32,
        stepped(0x976454abu32) == 0x41931e34u32,
        stepped(0x9522eaf2u32) == 0x5326b1dau32,
        stepped(0x94e080c5u32) == 0xeb9ad6bfu32,
        stepped(0x9fbcc7f8u32) == 0xb3f9c6e9u32,
        stepped(0x9e7eadcfu32) == 0x0b45a18cu32,
        stepped(0x9c381396u32) == 0x19f00e62u32,
        stepped(0x9dfa79a1u32) == 0xa14c6907u32,
        stepped(0x98b56f24u32) == 0x3c9b51beu32,
        stepped(0x99770513u32) == 0x842736dbu32,
        stepped(0x9b31bb4au32) == 0x96929935u32,
        stepped(0x9af3d17du32) == 0x2e2efe50u32,
        stepped(0x8d893530u32) == 0x2654b999u32,
        stepped(0x8c4b5f07u32) == 0x9ee8defcu32,
        stepped(0x8e0de15eu32) == 0x8c5d7112u32,
        stepped(0x8fcf8b69u32) == 0x34e11677u32,
        stepped(0x8a809decu32) == 0xa9362eceu32,
        stepped(0x8b42f7dbu32) == 0x118a49abu32,
        stepped(0x89044982u32) == 0x033fe645u32,
        stepped(0x88c623b5u32) == 0xbb838120u32,
        stepped(0x839a6488u32) == 0xe3e09176u32,
        stepped(0x82580ebfu32) == 0x5b5cf613u32,
        stepped(0x801eb0e6u32) == 0x49e959fdu32,
        stepped(0x81dcdad1u32) == 0xf1553e98u32,
        stepped(0x8493cc54u32) == 0x6c820621u32,
        stepped(0x8551a663u32) == 0xd43e6144u32,
        stepped(0x8717183au32) == 0xc68bceaau32,
        stepped(0x86d5720du32) == 0x7e37a9cfu32,
        stepped(0xa9e2d0a0u32) == 0xd67f4138u32,
        stepped(0xa820ba97u32) == 0x6ec3265du32,
        stepped(0xaa6604ceu32) == 0x7c7689b3u32,
        stepped(0xaba46ef9u32) == 0xc4caeed6u32,
        stepped(0xaeeb787cu32) == 0x591dd66fu32,
        stepped(0xaf29124bu32) == 0xe1a1b10au32,
        stepped(0xad6fac12u32) == 0xf3141ee4u32,
        stepped(0xacadc625u32) == 0x4ba87981u32,
        stepped(0xa7f18118u32) == 0x13cb69d7u32,
        stepped(0xa633eb2fu32) == 0xab770eb2u32,
        stepped(0xa4755576u32) == 0xb9c2a15cu32,
        stepped(0xa5b73f41u32) == 0x017ec639u32,
        stepped(0xa0f829c4u32) == 0x9ca9fe80u32,
        stepped(0xa13a43f3u32) == 0x241599e5u32,
        stepped(0xa37cfdaau32) == 0x36a0360bu32,
        stepped(0xa2be979du32) == 0x8e1c516eu32,
        stepped(0xb5c473d0u32) == 0x866616a7u32,
        stepped(0xb40619e7u32) == 0x3eda71c2u32,
        stepped(0xb640a7beu32) == 0x2c6fde2cu32,
        stepped(0xb782cd89u32) == 0x94d3b949u32,
        stepped(0xb2cddb0cu32) == 0x090481f0u32,
        stepped(0xb30fb13bu32) == 0xb1b8e695u32,
        stepped(0xb1490f62u32) == 0xa30d497bu32,
        stepped(0xb08b6555u32) == 0x1bb12e1eu32,
        stepped(0xbbd72268u32) == 0x43d23e48u32,
        stepped(0xba15485fu32) == 0xfb6e592du32,
        stepped(0xb853f606u32) == 0xe9dbf6c3u32,
        stepped(0xb9919c31u32) == 0x516791a6u32,
        stepped(0xbcde8ab4u32) == 0xccb0a91fu32,
        stepped(0xbd1ce083u32) == 0x740cce7au32,
        stepped(0xbf5a5edau32) == 0x66b96194u32,
        stepped(0xbe9834edu32) == 0xde0506f1u32,
{
}

proof fn lemma_row_4(i: int)
    requires
        0 <= i < 256,
    ensures
        CRC32_TABLE[4][i] == shift_byte(CRC32_TABLE[3][i]),
{
    assert(CRC32_TABLE[4][i] == stepped(CRC32_TABLE[3][i])) by {
        lemma_byte_cases(i);
        lemma_steps_4();
    }
    reveal(stepped);
}

/// What each entry of table 3 becomes over a zero byte.
proof fn lemma_steps_4()
    by (bit_vector)
    ensures
        stepped(0x00000000u32) == 0x00000000u32,
        stepped(0xb8bc6765u32) == 0x3d6029b0u32,
        stepped(0xaa09c88bu32) == 0x7ac05360u32,
        stepped(0x12b5afeeu32) == 0x47a07ad0u32,
        stepped(0x8f629757u32) == 0xf580a6c0u32,
        stepped(0x37def032u32) == 0xc8e08f70u32,
        stepped(0x256b5fdcu32) == 0x8f40f5a0u32,
        stepped(0x9dd738b9u32) == 0xb220dc10u32,
        stepped(0xc5b428efu32) == 0x30704bc1u32,
        stepped(0x7d084f8au32) == 0x0d106271u32,
        stepped(0x6fbde064u32) == 0x4ab018a1u32,
        stepped(0xd7018701u32) == 0x77d03111u32,
        stepped(0x4ad6bfb8u32) == 0xc5f0ed01u32,
        stepped(0xf26ad8ddu32) == 0xf890c4b1u32,
        stepped(0xe0df7733u32) == 0xbf30be61u32,
        stepped(0x58631056u32) == 0x825097d1u32,
        stepped(0x5019579fu32) == 0x60e09782u32,
        stepped(0xe8a530fau32) == 0x5d80be32u32,
        stepped(0xfa109f14u32) == 0x1a20c4e2u32,
        stepped(0x42acf871u32) == 0x2740ed52u32,
        stepped(0xdf7bc0c8u32) == 0x95603142u32,
        stepped(0x67c7a7adu32) == 0xa80018f2u32,
        stepped(0x75720843u32) == 0xefa06222u32,
        stepped(0xcdce6f26u32) == 0xd2c04b92u32,
        stepped(0x95ad7f70u32) == 0x5090dc43u32,
        stepped(0x2d111815u32) == 0x6df0f5f3u32,
        stepped(0x3fa4b7fbu32) == 0x2a508f23u32,
        stepped(0x8718d09eu32) == 0x1730a693u32,
        stepped(0x1acfe827u32) == 0xa5107a83u32,
        stepped(0xa2738f42u32) == 0x98705333u32,
        stepped(0xb0c620acu32) == 0xdfd029e3u32,
        stepped(0x087a47c9u32) == 0xe2b00053u32,
        stepped(0xa032af3eu32) == 0xc1c12f04u32,
        stepped(0x188ec85bu32) == 0xfca106b4u32,
        stepped(0x0a3b67b5u32) == 0xbb017c64u32,
        stepped(0xb28700d0u32) == 0x866155d4u32,
        stepped(0x2f503869u32) == 0x344189c4u32,
        stepped(0x97ec5f0cu32) == 0x0921a074u32,
        stepped(0x8559f0e2u32) == 0x4e81daa4u32,
        stepped(0x3de59787u32) == 0x73e1f314u32,
        stepped(0x658687d1u32) == 0xf1b164c5u32,
        stepped(0xdd3ae0b4u32) == 0xccd14d75u32,
        stepped(0xcf8f4f5au32) == 0x8b7137a5u32,
        stepped(0x7733283fu32) == 0xb6111e15u32,
        stepped(0xeae41086u32) == 0x0431c205u32,
        stepped(0x525877e3u32) == 0x3951ebb5u32,
        stepped(0x40edd80du32) == 0x7ef19165u32,
        stepped(0xf851bf68u32) == 0x4391b8d5u32,
        stepped(0xf02bf8a1u32) == 0xa121b886u32,
        stepped(0x48979fc4u32) == 0x9c419136u32,
        stepped(0x5a22302au32) == 0xdbe1ebe6u32,
        stepped(0xe29e574fu32) == 0xe681c256u32,
        stepped(0x7f496ff6u32) == 0x54a11e46u32,
        stepped(0xc7f50893u32) == 0x69c137f6u32,
        stepped(0xd540a77du32) == 0x2e614d26u32,
        stepped(0x6dfcc018u32) == 0x13016496u32,
        stepped(0x359fd04eu32) == 0x9151f347u32,
        stepped(0x8d23b72bu32) == 0xac31daf7u32,
        stepped(0x9f9618c5u32) == 0xeb91a027u32,
        stepped(0x272a7fa0u32) == 0xd6f18997u32,
        stepped(0xbafd4719u32) == 0x64d15587u32,
        stepped(0x0241207cu32) == 0x59b17c37u32,
        stepped(0x10f48f92u32) == 0x1e1106e7u32,
        stepped(0xa848e8f7u32) == 0x23712f57u32,
        stepped(0x9b14583du32) == 0x58f35849u32,
        stepped(0x23a83f58u32) == 0x659371f9u32,
        stepped(0x311d90b6u32) == 0x22330b29u32,
        stepped(0x89a1f7d3u32) == 0x1f532299u32,
        stepped(0x1476cf6au32) == 0xad73fe89u32,
        stepped(0xaccaa80fu32) == 0x9013d739u32,
        stepped(0xbe7f07e1u32) == 0xd7b3ade9u32,
        stepped(0x06c36084u32) == 0xead38459u32,
        stepped(0x5ea070d2u32) == 0x68831388u32,
        stepped(0xe61c17b7u32) == 0x55e33a38u32,
        stepped(0xf4a9b859u32) == 0x124340e8u32,
        stepped(0x4c15df3cu32) == 0x2f236958u32,
        stepped(0xd1c2e785u32) == 0x9d03b548u32,
        stepped(0x697e80e0u32) == 0xa0639cf8u32,
        stepped(0x7bcb2f0eu32) == 0xe7c3e628u32,
        stepped(0xc377486bu32) == 0xdaa3cf98u32,
        stepped(0xcb0d0fa2u32) == 0x3813cfcbu32,
        stepped(0x73b168c7u32) == 0x0573e67bu32,
        stepped(0x6104c729u32) == 0x42d39cabu32,
        stepped(0xd9b8a04cu32) == 0x7fb3b51bu32,
        stepped(0x446f98f5u32) == 0xcd93690bu32,
        stepped(0xfcd3ff90u32) == 0xf0f340bbu32,
        stepped(0xee66507eu32) == 0xb7533a6bu32,
        stepped(0x56da371bu32) == 0x8a3313dbu32,
        stepped(0x0eb9274du32) == 0x0863840au32,
        stepped(0xb6054028u32) == 0x3503adbau32,
        stepped(0xa4b0efc6u32) == 0x72a3d76au32,
        stepped(0x1c0c88a3u32) == 0x4fc3fedau32,
        stepped(0x81dbb01au32) == 0xfde322cau32,
        stepped(0x3967d77fu32) == 0xc0830b7au32,
        stepped(0x2bd27891u32) == 0x872371aau32,
        stepped(0x936e1ff4u32) == 0xba43581au32,
        stepped(0x3b26f703u32) == 0x9932774du32,
        stepped(0x839a9066u32) == 0xa4525efdu32,
        stepped(0x912f3f88u32) == 0xe3f2242du32,
        stepped(0x299358edu32) == 0xde920d9du32,
        stepped(0xb4446054u32) == 0x6cb2d18du32,
        stepped(0x0cf80731u32) == 0x51d2f83du32,
        stepped(0x1e4da8dfu32) == 0x167282edu32,
        stepped(0xa6f1cfbau32) == 0x2b12ab5du32,
        stepped(0xfe92dfecu32) == 0xa9423c8cu32,
        stepped(0x462eb889u32) == 0x9422153cu32,
        stepped(0x549b1767u32) == 0xd3826fecu32,
        stepped(0xec277002u32) == 0xeee2465cu32,
        stepped(0x71f048bbu32) == 0x5cc29a4cu32,
        stepped(0xc94c2fdeu32) == 0x61a2b3fcu32,
        stepped(0xdbf98030u32) == 0x2602c92cu32,
        stepped(0x6345e755u32) == 0x1b62e09cu32,
        stepped(0x6b3fa09cu32) == 0xf9d2e0cfu32,
        stepped(0xd383c7f9u32) == 0xc4b2c97fu32,
        stepped(0xc1366817u32) == 0x8312b3afu32,
        stepped(0x798a0f72u32) == 0xbe729a1fu32,
        stepped(0xe45d37cbu32) == 0x0c52460fu32,
        stepped(0x5ce150aeu32) == 0x31326fbfu32,
        stepped(0x4e54ff40u32) == 0x7692156fu32,
        stepped(0xf6e89825u32) == 0x4bf23cdfu32,
        stepped(0xae8b8873u32) == 0xc9a2ab0eu32,
        stepped(0x1637ef16u32) == 0xf4c282beu32,
        stepped(0x048240f8u32) == 0xb362f86eu32,
        stepped(0xbc3e279du32) == 0x8e02d1deu32,
        stepped(0x21e91f24u32) == 0x3c220dceu32,
        stepped(0x99557841u32) == 0x0142247eu32,
        stepped(0x8be0d7afu32) == 0x46e25eaeu32,
        stepped(0x335cb0cau32) == 0x7b82771eu32,
        stepped(0xed59b63bu32) == 0xb1e6b092u32,
        stepped(0x55e5d15eu32) == 0x8c869922u32,
        stepped(0x47507eb0u32) == 0xcb26e3f2u32,
        stepped(0xffec19d5u32) == 0xf646ca42u32,
        stepped(0x623b216cu32) == 0x44661652u32,
        stepped(0xda874609u32) == 0x79063fe2u32,
        stepped(0xc832e9e7u32) == 0x3ea64532u32,
        stepped(0x708e8e82u32) == 0x03c66c82u32,
        stepped(0x28ed9ed4u32) == 0x8196fb53u32,
        stepped(0x9051f9b1u32) == 0xbcf6d2e3u32,
        stepped(0x82e4565fu32) == 0xfb56a833u32,
        stepped(0x3a58313au32) == 0xc6368183u32,
        stepped(0xa78f0983u32) == 0x74165d93u32,
        stepped(0x1f336ee6u32) == 0x49767423u32,
        stepped(0x0d86c108u32) == 0x0ed60ef3u32,
        stepped(0xb53aa66du32) == 0x33b62743u32,
        stepped(0xbd40e1a4u32) == 0xd1062710u32,
        stepped(0x05fc86c1u32) == 0xec660ea0u32,
        stepped(0x1749292fu32) == 0xabc67470u32,
        stepped(0xaff54e4au32) == 0x96a65dc0u32,
        stepped(0x322276f3u32) == 0x248681d0u32,
        stepped(0x8a9e1196u32) == 0x19e6a860u32,
        stepped(0x982bbe78u32) == 0x5e46d2b0u32,
        stepped(0x2097d91du32) == 0x6326fb00u32,
        stepped(0x78f4c94bu32) == 0xe1766cd1u32,
        stepped(0xc048ae2eu32) == 0xdc164561u32,
        stepped(0xd2fd01c0u32) == 0x9bb63fb1u32,
        stepped(0x6a4166a5u32) == 0xa6d61601u32,
        stepped(0xf7965e1cu32) == 0x14f6ca11u32,
        stepped(0x4f2a3979u32) == 0x2996e3a1u32,
        stepped(0x5d9f9697u32) == 0x6e369971u32,
        stepped(0xe523f1f2u32) == 0x5356b0c1u32,
        stepped(0x4d6b1905u32) == 0x70279f96u32,
        stepped(0xf5d77e60u32) == 0x4d47b626u32,
        stepped(0xe762d18eu32) == 0x0ae7ccf6u32,
        stepped(0x5fdeb6ebu32) == 0x3787e546u32,
        stepped(0xc2098e52u32) == 0x85a73956u32,
        stepped(0x7ab5e937u32) == 0xb8c710e6u32,
        stepped(0x680046d9u32) == 0xff676a36u32,
        stepped(0xd0bc21bcu32) == 0xc2074386u32,
        stepped(0x88df31eau32) == 0x4057d457u32,
        stepped(0x3063568fu32) == 0x7d37fde7u32,
        stepped(0x22d6f961u32) == 0x3a978737u32,
        stepped(0x9a6a9e04u32) == 0x07f7ae87u32,
        stepped(0x07bda6bdu32) == 0xb5d77297u32,
        stepped(0xbf01c1d8u32) == 0x88b75b27u32,
        stepped(0xadb46e36u32) == 0xcf1721f7u32,
        stepped(0x15080953u32) == 0xf2770847u32,
        stepped(0x1d724e9au32) == 0x10c70814u32,
        stepped(0xa5ce29ffu32) == 0x2da721a4u32,
        stepped(0xb77b8611u32) == 0x6a075b74u32,
        stepped(0x0fc7e174u32) == 0x576772c4u32,
        stepped(0x9210d9cdu32) == 0xe547aed4u32,
        stepped(0x2aacbea8u32) == 0xd8278764u32,
        stepped(0x38191146u32) == 0x9f87fdb4u32,
        stepped(0x80a57623u32) == 0xa2e7d404u32,
        stepped(0xd8c66675u32) == 0x20b743d5u32,
        stepped(0x607a0110u32) == 0x1dd76a65u32,
        stepped(0x72cfaefeu32) == 0x5a7710b5u32,
        stepped(0xca73c99bu32) == 0x67173905u32,
        stepped(0x57a4f122u32) == 0xd537e515u32,
        stepped(0xef189647u32) == 0xe857cca5u32,
        stepped(0xfdad39a9u32) == 0xaff7b675u32,
        stepped(0x45115eccu32) == 0x92979fc5u32,
        stepped(0x764dee06u32) == 0xe915e8dbu32,
        stepped(0xcef18963u32) == 0xd475c16bu32,
        stepped(0xdc44268du32) == 0x93d5bbbbu32,
        stepped(0x64f841e8u32) == 0xaeb5920bu32,
        stepped(0xf92f7951u32) == 0x1c954e1bu32,
        stepped(0x41931e34u32) == 0x21f567abu32,
        stepped(0x5326b1dau32) == 0x66551d7bu32,
        stepped(0xeb9ad6bfu32) == 0x5b3534cbu32,
        stepped(0xb3f9c6e9u32) == 0xd965a31au32,
        stepped(0x0b45a18cu32) == 0xe4058aaau32,
        stepped(0x19f00e62u32) == 0xa3a5f07au32,
        stepped(0xa14c6907u32) == 0x9ec5d9cau32,
        stepped(0x3c9b51beu32) == 0x2ce505dau32,
        stepped(0x842736dbu32) == 0x11852c6au32,
        stepped(0x96929935u32) == 0x562556bau32,
        stepped(0x2e2efe50u32) == 0x6b457f0au32,
        stepped(0x2654b999u32) == 0x89f57f59u32,
        stepped(0x9ee8defcu32) == 0xb49556e9u32,
        stepped(0x8c5d7112u32) == 0xf3352c39u32,
        stepped(0x34e11677u32) == 0xce550589u32,
        stepped(0xa9362eceu32) == 0x7c75d999u32,
        stepped(0x118a49abu32) == 0x4115f029u32,
        stepped(0x033fe645u32) == 0x06b58af9u32,
        stepped(0xbb838120u32) == 0x3bd5a349u32,
        stepped(0xe3e09176u32) == 0xb9853498u32,
        stepped(0x5b5cf613u32) == 0x84e51d28u32,
        stepped(0x49e959fdu32) == 0xc34567f8u32,
        stepped(0xf1553e98u32) == 0xfe254e48u32,
        stepped(0x6c820621u32) == 0x4c059258u32,
        stepped(0xd43e6144u32) == 0x7165bbe8u32,
        stepped(0xc68bceaau32) == 0x36c5c138u32,
        stepped(0x7e37a9cfu32) == 0x0ba5e888u32,
        stepped(0xd67f4138u32) == 0x28d4c7dfu32,
        stepped(0x6ec3265du32) == 0x15b4ee6fu32,
        stepped(0x7c7689b3u32) == 0x521494bfu32,
        stepped(0xc4caeed6u32) == 0x6f74bd0fu32,
        stepped(0x591dd66fu32) == 0xdd54611fu32,
        stepped(0xe1a1b10au32) == 0xe03448afu32,
        stepped(0xf3141ee4u32) == 0xa794327fu32,
        stepped(0x4ba87981u32) == 0x9af41bcfu32,
        stepped(0x13cb69d7u32) == 0x18a48c1eu32,
        stepped(0xab770eb2u32) == 0x25c4a5aeu32,
        stepped(0xb9c2a15cu32) == 0x6264df7eu32,
        stepped(0x017ec639u32) == 0x5f04f6ceu32,
        stepped(0x9ca9fe80u32) == 0xed242adeu32,
        stepped(0x241599e5u32) == 0xd044036eu32,
        stepped(0x36a0360bu32) == 0x97e479beu32,
        stepped(0x8e1c516eu32) == 0xaa84500eu32,
        stepped(0x866616a7u32) == 0x4834505du32,
        stepped(0x3eda71c2u32) == 0x755479edu32,
        stepped(0x2c6fde2cu32) == 0x32f4033du32,
        stepped(0x94d3b949u32) == 0x0f942a8du32,
        stepped(0x090481f0u32) == 0xbdb4f69du32,
        stepped(0xb1b8e695u32) == 0x80d4df2du32,
        stepped(0xa30d497bu32) == 0xc774a5fdu32,
        stepped(0x1bb12e1eu32) == 0xfa148c4du32,
        stepped(0x43d23e48u32) == 0x78441b9cu32,
        stepped(0xfb6e592du32) == 0x4524322cu32,
        stepped(0xe9dbf6c3u32) == 0x028448fcu32,
        stepped(0x516791a6u32) == 0x3fe4614cu32,
        stepped(0xccb0a91fu32) == 0x8dc4bd5cu32,
        stepped(0x740cce7au32) == 0xb0a494ecu32,
        stepped(0x66b96194u32) == 0xf704ee3cu32,
        stepped(0xde0506f1u32) == 0xca64c78cu32,
{
}

proof fn lemma_row_5(i: int)
    requires
        0 <= i < 256,
    ensures
        CRC32_TABLE[5][i] == shift_byte(CRC32_TABLE[4][i]),
{
    assert(CRC32_TABLE[5][i] == stepped(CRC32_TABLE[4][i])) by {
        lemma_byte_cases(i);
        lemma_steps_5();
    }
    reveal(stepped);
}

/// What each entry of table 4 becomes over a zero byte.
proof fn lemma_steps_5()
    by (bit_vector)
    ensures
        stepped(0x00000000u32) == 0x00000000u32,
        stepped(0x3d6029b0u32) == 0xcb5cd3a5u32,
        stepped(0x7ac05360u32) == 0x4dc8a10bu32,
        stepped(0x47a07ad0u32) == 0x869472aeu32,
        stepped(0xf580a6c0u32) == 0x9b914216u32,
        stepped(0xc8e08f70u32) == 0x50cd91b3u32,
        stepped(0x8f40f5a0u32) == 0xd659e31du32,
        stepped(0xb220dc10u32) == 0x1d0530b8u32,
        stepped(0x30704bc1u32) == 0xec53826du32,
        stepped(0x0d106271u32) == 0x270f51c8u32,
        stepped(0x4ab018a1u32) == 0xa19b2366u32,
        stepped(0x77d03111u32) == 0x6ac7f0c3u32,
        stepped(0xc5f0ed01u32) == 0x77c2c07bu32,
        stepped(0xf890c4b1u32) == 0xbc9e13deu32,
        stepped(0xbf30be61u32) == 0x3a0a6170u32,
        stepped(0x825097d1u32) == 0xf156b2d5u32,
        stepped(0x60e09782u32) == 0x03d6029bu32,
        stepped(0x5d80be32u32) == 0xc88ad13eu32,
        stepped(0x1a20c4e2u32) == 0x4e1ea390u32,
        stepped(0x2740ed52u32) == 0x85427035u32,
        stepped(0x95603142u32) == 0x9847408du32,
        stepped(0xa80018f2u32) == 0x531b9328u32,
        stepped(0xefa06222u32) == 0xd58fe186u32,
        stepped(0xd2c04b92u32) == 0x1ed33223u32,
        stepped(0x5090dc43u32) == 0xef8580f6u32,
        stepped(0x6df0f5f3u32) == 0x24d95353u32,
        stepped(0x2a508f23u32) == 0xa24d21fdu32,
        stepped(0x1730a693u32) == 0x6911f258u32,
        stepped(0xa5107a83u32) == 0x7414c2e0u32,
        stepped(0x98705333u32) == 0xbf481145u32,
        stepped(0xdfd029e3u32) == 0x39dc63ebu32,
        stepped(0xe2b00053u32) == 0xf280b04eu32,
        stepped(0xc1c12f04u32) == 0x07ac0536u32,
        stepped(0xfca106b4u32) == 0xccf0d693u32,
        stepped(0xbb017c64u32) == 0x4a64a43du32,
        stepped(0x866155d4u32) == 0x81387798u32,
        stepped(0x344189c4u32) == 0x9c3d4720u32,
        stepped(0x0921a074u32) == 0x57619485u32,
        stepped(0x4e81daa4u32) == 0xd1f5e62bu32,
        stepped(0x73e1f314u32) == 0x1aa9358eu32,
        stepped(0xf1b164c5u32) == 0xebff875bu32,
        stepped(0xccd14d75u32) == 0x20a354feu32,
        stepped(0x8b7137a5u32) == 0xa6372650u32,
        stepped(0xb6111e15u32) == 0x6d6bf5f5u32,
        stepped(0x0431c205u32) == 0x706ec54du32,
        stepped(0x3951ebb5u32) == 0xbb3216e8u32,
        stepped(0x7ef19165u32) == 0x3da66446u32,
        stepped(0x4391b8d5u32) == 0xf6fab7e3u32,
        stepped(0xa121b886u32) == 0x047a07adu32,
        stepped(0x9c419136u32) == 0xcf26d408u32,
        stepped(0xdbe1ebe6u32) == 0x49b2a6a6u32,
        stepped(0xe681c256u32) == 0x82ee7503u32,
        stepped(0x54a11e46u32) == 0x9feb45bbu32,
        stepped(0x69c137f6u32) == 0x54b7961eu32,
        stepped(0x2e614d26u32) == 0xd223e4b0u32,
        stepped(0x13016496u32) == 0x197f3715u32,
        stepped(0x9151f347u32) == 0xe82985c0u32,
        stepped(0xac31daf7u32) == 0x23755665u32,
        stepped(0xeb91a027u32) == 0xa5e124cbu32,
        stepped(0xd6f18997u32) == 0x6ebdf76eu32,
        stepped(0x64d15587u32) == 0x73b8c7d6u32,
        stepped(0x59b17c37u32) == 0xb8e41473u32,
        stepped(0x1e1106e7u32) == 0x3e7066ddu32,
        stepped(0x23712f57u32) == 0xf52cb578u32,
        stepped(0x58f35849u32) == 0x0f580a6cu32,
        stepped(0x659371f9u32) == 0xc404d9c9u32,
        stepped(0x22330b29u32) == 0x4290ab67u32,
        stepped(0x1f532299u32) == 0x89cc78c2u32,
        stepped(0xad73fe89u32) == 0x94c9487au32,
        stepped(0x9013d739u32) == 0x5f959bdfu32,
        stepped(0xd7b3ade9u32) == 0xd901e971u32,
        stepped(0xead38459u32) == 0x125d3ad4u32,
        stepped(0x68831388u32) == 0xe30b8801u32,
        stepped(0x55e33a38u32) == 0x28575ba4u32,
        stepped(0x124340e8u32) == 0xaec3290au32,
        stepped(0x2f236958u32) == 0x659ffaafu32,
        stepped(0x9d03b548u32) == 0x789aca17u32,
        stepped(0xa0639cf8u32) == 0xb3c619b2u32,
        stepped(0xe7c3e628u32) == 0x35526b1cu32,
        stepped(0xdaa3cf98u32) == 0xfe0eb8b9u32,
        stepped(0x3813cfcbu32) == 0x0c8e08f7u32,
        stepped(0x0573e67bu32) == 0xc7d2db52u32,
        stepped(0x42d39cabu32) == 0x4146a9fcu32,
        stepped(0x7fb3b51bu32) == 0x8a1a7a59u32,
        stepped(0xcd93690bu32) == 0x971f4ae1u32,
        stepped(0xf0f340bbu32) == 0x5c439944u32,
        stepped(0xb7533a6bu32) == 0xdad7ebeau32,
        stepped(0x8a3313dbu32) == 0x118b384fu32,
        stepped(0x0863840au32) == 0xe0dd8a9au32,
        stepped(0x3503adbau32) == 0x2b81593fu32,
        stepped(0x72a3d76au32) == 0xad152b91u32,
        stepped(0x4fc3fedau32) == 0x6649f834u32,
        stepped(0xfde322cau32) == 0x7b4cc88cu32,
        stepped(0xc0830b7au32) == 0xb0101b29u32,
        stepped(0x872371aau32) == 0x36846987u32,
        stepped(0xba43581au32) == 0xfdd8ba22u32,
        stepped(0x9932774du32) == 0x08f40f5au32,
        stepped(0xa4525efdu32) == 0xc3a8dcffu32,
        stepped(0xe3f2242du32) == 0x453cae51u32,
        stepped(0xde920d9du32) == 0x8e607df4u32,
        stepped(0x6cb2d18du32) == 0x93654d4cu32,
        stepped(0x51d2f83du32) == 0x58399ee9u32,
        stepped(0x167282edu32) == 0xdeadec47u32,
        stepped(0x2b12ab5du32) == 0x15f13fe2u32,
        stepped(0xa9423c8cu32) == 0xe4a78d37u32,
        stepped(0x9422153cu32) == 0x2ffb5e92u32,
        stepped(0xd3826fecu32) == 0xa96f2c3cu32,
        stepped(0xeee2465cu32) == 0x6233ff99u32,
        stepped(0x5cc29a4cu32) == 0x7f36cf21u32,
        stepped(0x61a2b3fcu32) == 0xb46a1c84u32,
        stepped(0x2602c92cu32) == 0x32fe6e2au32,
        stepped(0x1b62e09cu32) == 0xf9a2bd8fu32,
        stepped(0xf9d2e0cfu32) == 0x0b220dc1u32,
        stepped(0xc4b2c97fu32) == 0xc07ede64u32,
        stepped(0x8312b3afu32) == 0x46eaaccau32,
        stepped(0xbe729a1fu32) == 0x8db67f6fu32,
        stepped(0x0c52460fu32) == 0x90b34fd7u32,
        stepped(0x31326fbfu32) == 0x5bef9c72u32,
        stepped(0x7692156fu32) == 0xdd7beedcu32,
        stepped(0x4bf23cdfu32) == 0x16273d79u32,
        stepped(0xc9a2ab0eu32) == 0xe7718facu32,
        stepped(0xf4c282beu32) == 0x2c2d5c09u32,
        stepped(0xb362f86eu32) == 0xaab92ea7u32,
        stepped(0x8e02d1deu32) == 0x61e5fd02u32,
        stepped(0x3c220dceu32) == 0x7ce0cdbau32,
        stepped(0x0142247eu32) == 0xb7bc1e1fu32,
        stepped(0x46e25eaeu32) == 0x31286cb1u32,
        stepped(0x7b82771eu32) == 0xfa74bf14u32,
        stepped(0xb1e6b092u32) == 0x1eb014d8u32,
        stepped(0x8c869922u32) == 0xd5ecc77du32,
        stepped(0xcb26e3f2u32) == 0x5378b5d3u32,
        stepped(0xf646ca42u32) == 0x98246676u32,
        stepped(0x44661652u32) == 0x852156ceu32,
        stepped(0x79063fe2u32) == 0x4e7d856bu32,
        stepped(0x3ea64532u32) == 0xc8e9f7c5u32,
        stepped(0x03c66c82u32) == 0x03b52460u32,
        stepped(0x8196fb53u32) == 0xf2e396b5u32,
        stepped(0xbcf6d2e3u32) == 0x39bf4510u32,
        stepped(0xfb56a833u32) == 0xbf2b37beu32,
        stepped(0xc6368183u32) == 0x7477e41bu32,
        stepped(0x74165d93u32) == 0x6972d4a3u32,
        stepped(0x49767423u32) == 0xa22e0706u32,
        stepped(0x0ed60ef3u32) == 0x24ba75a8u32,
        stepped(0x33b62743u32) == 0xefe6a60du32,
        stepped(0xd1062710u32) == 0x1d661643u32,
        stepped(0xec660ea0u32) == 0xd63ac5e6u32,
        stepped(0xabc67470u32) == 0x50aeb748u32,
        stepped(0x96a65dc0u32) == 0x9bf264edu32,
        stepped(0x248681d0u32) == 0x86f75455u32,
        stepped(0x19e6a860u32) == 0x4dab87f0u32,
        stepped(0x5e46d2b0u32) == 0xcb3ff55eu32,
        stepped(0x6326fb00u32) == 0x006326fbu32,
        stepped(0xe1766cd1u32) == 0xf135942eu32,
        stepped(0xdc164561u32) == 0x3a69478bu32,
        stepped(0x9bb63fb1u32) == 0xbcfd3525u32,
        stepped(0xa6d61601u32) == 0x77a1e680u32,
        stepped(0x14f6ca11u32) == 0x6aa4d638u32,
        stepped(0x2996e3a1u32) == 0xa1f8059du32,
        stepped(0x6e369971u32) == 0x276c7733u32,
        stepped(0x5356b0c1u32) == 0xec30a496u32,
        stepped(0x70279f96u32) == 0x191c11eeu32,
        stepped(0x4d47b626u32) == 0xd240c24bu32,
        stepped(0x0ae7ccf6u32) == 0x54d4b0e5u32,
        stepped(0x3787e546u32) == 0x9f886340u32,
        stepped(0x85a73956u32) == 0x828d53f8u32,
        stepped(0xb8c710e6u32) == 0x49d1805du32,
        stepped(0xff676a36u32) == 0xcf45f2f3u32,
        stepped(0xc2074386u32) == 0x04192156u32,
        stepped(0x4057d457u32) == 0xf54f9383u32,
        stepped(0x7d37fde7u32) == 0x3e134026u32,
        stepped(0x3a978737u32) == 0xb8873288u32,
        stepped(0x07f7ae87u32) == 0x73dbe12du32,
        stepped(0xb5d77297u32) == 0x6eded195u32,
        stepped(0x88b75b27u32) == 0xa5820230u32,
        stepped(0xcf1721f7u32) == 0x2316709eu32,
        stepped(0xf2770847u32) == 0xe84aa33bu32,
        stepped(0x10c70814u32) == 0x1aca1375u32,
        stepped(0x2da721a4u32) == 0xd196c0d0u32,
        stepped(0x6a075b74u32) == 0x5702b27eu32,
        stepped(0x576772c4u32) == 0x9c5e61dbu32,
        stepped(0xe547aed4u32) == 0x815b5163u32,
        stepped(0xd8278764u32) == 0x4a0782c6u32,
        stepped(0x9f87fdb4u32) == 0xcc93f068u32,
        stepped(0xa2e7d404u32) == 0x07cf23cdu32,
        stepped(0x20b743d5u32) == 0xf6999118u32,
        stepped(0x1dd76a65u32) == 0x3dc542bdu32,
        stepped(0x5a7710b5u32) == 0xbb513013u32,
        stepped(0x67173905u32) == 0x700de3b6u32,
        stepped(0xd537e515u32) == 0x6d08d30eu32,
        stepped(0xe857cca5u32) == 0xa65400abu32,
        stepped(0xaff7b675u32) == 0x20c07205u32,
        stepped(0x92979fc5u32) == 0xeb9ca1a0u32,
        stepped(0xe915e8dbu32) == 0x11e81eb4u32,
        stepped(0xd475c16bu32) == 0xdab4cd11u32,
        stepped(0x93d5bbbbu32) == 0x5c20bfbfu32,
        stepped(0xaeb5920bu32) == 0x977c6c1au32,
        stepped(0x1c954e1bu32) == 0x8a795ca2u32,
        stepped(0x21f567abu32) == 0x41258f07u32,
        stepped(0x66551d7bu32) == 0xc7b1fda9u32,
        stepped(0x5b3534cbu32) == 0x0ced2e0cu32,
        stepped(0xd965a31au32) == 0xfdbb9cd9u32,
        stepped(0xe4058aaau32) == 0x36e74f7cu32,
        stepped(0xa3a5f07au32) == 0xb0733dd2u32,
        stepped(0x9ec5d9cau32) == 0x7b2fee77u32,
        stepped(0x2ce505dau32) == 0x662adecfu32,
        stepped(0x11852c6au32) == 0xad760d6au32,
        stepped(0x562556bau32) == 0x2be27fc4u32,
        stepped(0x6b457f0au32) == 0xe0beac61u32,
        stepped(0x89f57f59u32) == 0x123e1c2fu32,
        stepped(0xb49556e9u32) == 0xd962cf8au32,
        stepped(0xf3352c39u32) == 0x5ff6bd24u32,
        stepped(0xce550589u32) == 0x94aa6e81u32,
        stepped(0x7c75d999u32) == 0x89af5e39u32,
        stepped(0x4115f029u32) == 0x42f38d9cu32,
        stepped(0x06b58af9u32) == 0xc467ff32u32,
        stepped(0x3bd5a349u32) == 0x0f3b2c97u32,
        stepped(0xb9853498u32) == 0xfe6d9e42u32,
        stepped(0x84e51d28u32) == 0x35314de7u32,
        stepped(0xc34567f8u32) == 0xb3a53f49u32,
        stepped(0xfe254e48u32) == 0x78f9ececu32,
        stepped(0x4c059258u32) == 0x65fcdc54u32,
        stepped(0x7165bbe8u32) == 0xaea00ff1u32,
        stepped(0x36c5c138u32) == 0x28347d5fu32,
        stepped(0x0ba5e888u32) == 0xe368aefau32,
        stepped(0x28d4c7dfu32) == 0x16441b82u32,
        stepped(0x15b4ee6fu32) == 0xdd18c827u32,
        stepped(0x521494bfu32) == 0x5b8cba89u32,
        stepped(0x6f74bd0fu32) == 0x90d0692cu32,
        stepped(0xdd54611fu32) == 0x8dd55994u32,
        stepped(0xe03448afu32) == 0x46898a31u32,
        stepped(0xa794327fu32) == 0xc01df89fu32,
        stepped(0x9af41bcfu32) == 0x0b412b3au32,
        stepped(0x18a48c1eu32) == 0xfa1799efu32,
        stepped(0x25c4a5aeu32) == 0x314b4a4au32,
        stepped(0x6264df7eu32) == 0xb7df38e4u32,
        stepped(0x5f04f6ceu32) == 0x7c83eb41u32,
        stepped(0xed242adeu32) == 0x6186dbf9u32,
        stepped(0xd044036eu32) == 0xaada085cu32,
        stepped(0x97e479beu32) == 0x2c4e7af2u32,
        stepped(0xaa84500eu32) == 0xe712a957u32,
        stepped(0x4834505du32) == 0x15921919u32,
        stepped(0x755479edu32) == 0xdececabcu32,
        stepped(0x32f4033du32) == 0x585ab812u32,
        stepped(0x0f942a8du32) == 0x93066bb7u32,
        stepped(0xbdb4f69du32) == 0x8e035b0fu32,
        stepped(0x80d4df2du32) == 0x455f88aau32,
        stepped(0xc774a5fdu32) == 0xc3cbfa04u32,
        stepped(0xfa148c4du32) == 0x089729a1u32,
        stepped(0x78441b9cu32) == 0xf9c19b74u32,
        stepped(0x4524322cu32) == 0x329d48d1u32,
        stepped(0x028448fcu32) == 0xb4093a7fu32,
        stepped(0x3fe4614cu32) == 0x7f55e9dau32,
        stepped(0x8dc4bd5cu32) == 0x6250d962u32,
        stepped(0xb0a494ecu32) == 0xa90c0ac7u32,
        stepped(0xf704ee3cu32) == 0x2f987869u32,
        stepped(0xca64c78cu32) == 0xe4c4abccu32,
{
}

proof fn lemma_row_6(i: int)
    requires
        0 <= i < 256,
    ensures
        CRC32_TABLE[6][i] == shift_byte(CRC32_TABLE[5][i]),
{
    assert(CRC32_TABLE[6][i] == stepped(CRC32_TABLE[5][i])) by {
        lemma_byte_cases(i);
        lemma_steps_6();
    }
    reveal(stepped);
}

/// What each entry of table 5 becomes over a zero byte.
proof fn lemma_steps_6()
    by (bit_vector)
    ensures
        stepped(0x00000000u32) == 0x00000000u32,
        stepped(0xcb5cd3a5u32) == 0xa6770bb4u32,
        stepped(0x4dc8a10bu32) == 0x979f1129u32,
        stepped(0x869472aeu32) == 0x31e81a9du32,
        stepped(0x9b914216u32) == 0xf44f2413u32,
        stepped(0x50cd91b3u32) == 0x52382fa7u32,
        stepped(0xd659e31du32) == 0x63d0353au32,
        stepped(0x1d0530b8u32) == 0xc5a73e8eu32,
        stepped(0xec53826du32) == 0x33ef4e67u32,
        stepped(0x270f51c8u32) == 0x959845d3u32,
        stepped(0xa19b2366u32) == 0xa4705f4eu32,
        stepped(0x6ac7f0c3u32) == 0x020754fau32,
        stepped(0x77c2c07bu32) == 0xc7a06a74u32,
        stepped(0xbc9e13deu32) == 0x61d761c0u32,
        stepped(0x3a0a6170u32) == 0x503f7b5du32,
        stepped(0xf156b2d5u32) == 0xf64870e9u32,
        stepped(0x03d6029bu32) == 0x67de9cceu32,
        stepped(0xc88ad13eu32) == 0xc1a9977au32,
        stepped(0x4e1ea390u32) == 0xf0418de7u32,
        stepped(0x85427035u32) == 0x56368653u32,
        stepped(0x9847408du32) == 0x9391b8ddu32,
        stepped(0x531b9328u32) == 0x35e6b369u32,
        stepped(0xd58fe186u32) == 0x040ea9f4u32,
        stepped(0x1ed33223u32) == 0xa279a240u32,
        stepped(0xef8580f6u32) == 0x5431d2a9u32,
        stepped(0x24d95353u32) == 0xf246d91du32,
        stepped(0xa24d21fdu32) == 0xc3aec380u32,
        stepped(0x6911f258u32) == 0x65d9c834u32,
        stepped(0x7414c2e0u32) == 0xa07ef6bau32,
        stepped(0xbf481145u32) == 0x0609fd0eu32,
        stepped(0x39dc63ebu32) == 0x37e1e793u32,
        stepped(0xf280b04eu32) == 0x9196ec27u32,
        stepped(0x07ac0536u32) == 0xcfbd399cu32,
        stepped(0xccf0d693u32) == 0x69ca3228u32,
        stepped(0x4a64a43du32) == 0x582228b5u32,
        stepped(0x81387798u32) == 0xfe552301u32,
        stepped(0x9c3d4720u32) == 0x3bf21d8fu32,
        stepped(0x57619485u32) == 0x9d85163bu32,
        stepped(0xd1f5e62bu32) == 0xac6d0ca6u32,
        stepped(0x1aa9358eu32) == 0x0a1a0712u32,
        stepped(0xebff875bu32) == 0xfc5277fbu32,
        stepped(0x20a354feu32) == 0x5a257c4fu32,
        stepped(0xa6372650u32) == 0x6bcd66d2u32,
        stepped(0x6d6bf5f5u32) == 0xcdba6d66u32,
        stepped(0x706ec54du32) == 0x081d53e8u32,
        stepped(0xbb3216e8u32) == 0xae6a585cu32,
        stepped(0x3da66446u32) == 0x9f8242c1u32,
        stepped(0xf6fab7e3u32) == 0x39f54975u32,
        stepped(0x047a07adu32) == 0xa863a552u32,
        stepped(0xcf26d408u32) == 0x0e14aee6u32,
        stepped(0x49b2a6a6u32) == 0x3ffcb47bu32,
        stepped(0x82ee7503u32) == 0x998bbfcfu32,
        stepped(0x9feb45bbu32) == 0x5c2c8141u32,
        stepped(0x54b7961eu32) == 0xfa5b8af5u32,
        stepped(0xd223e4b0u32) == 0xcbb39068u32,
        stepped(0x197f3715u32) == 0x6dc49bdcu32,
        stepped(0xe82985c0u32) == 0x9b8ceb35u32,
        stepped(0x23755665u32) == 0x3dfbe081u32,
        stepped(0xa5e124cbu32) == 0x0c13fa1cu32,
        stepped(0x6ebdf76eu32) == 0xaa64f1a8u32,
        stepped(0x73b8c7d6u32) == 0x6fc3cf26u32,
        stepped(0xb8e41473u32) == 0xc9b4c492u32,
        stepped(0x3e7066ddu32) == 0xf85cde0fu32,
        stepped(0xf52cb578u32) == 0x5e2bd5bbu32,
        stepped(0x0f580a6cu32) == 0x440b7579u32,
        stepped(0xc404d9c9u32) == 0xe27c7ecdu32,
        stepped(0x4290ab67u32) == 0xd3946450u32,
        stepped(0x89cc78c2u32) == 0x75e36fe4u32,
        stepped(0x94c9487au32) == 0xb044516au32,
        stepped(0x5f959bdfu32) == 0x16335adeu32,
        stepped(0xd901e971u32) == 0x27db4043u32,
        stepped(0x125d3ad4u32) == 0x81ac4bf7u32,
        stepped(0xe30b8801u32) == 0x77e43b1eu32,
        stepped(0x28575ba4u32) == 0xd19330aau32,
        stepped(0xaec3290au32) == 0xe07b2a37u32,
        stepped(0x659ffaafu32) == 0x460c2183u32,
        stepped(0x789aca17u32) == 0x83ab1f0du32,
        stepped(0xb3c619b2u32) == 0x25dc14b9u32,
        stepped(0x35526b1cu32) == 0x14340e24u32,
        stepped(0xfe0eb8b9u32) == 0xb2430590u32,
        stepped(0x0c8e08f7u32) == 0x23d5e9b7u32,
        stepped(0xc7d2db52u32) == 0x85a2e203u32,
        stepped(0x4146a9fcu32) == 0xb44af89eu32,
        stepped(0x8a1a7a59u32) == 0x123df32au32,
        stepped(0x971f4ae1u32) == 0xd79acda4u32,
        stepped(0x5c439944u32) == 0x71edc610u32,
        stepped(0xdad7ebeau32) == 0x4005dc8du32,
        stepped(0x118b384fu32) == 0xe672d739u32,
        stepped(0xe0dd8a9au32) == 0x103aa7d0u32,
        stepped(0x2b81593fu32) == 0xb64dac64u32,
        stepped(0xad152b91u32) == 0x87a5b6f9u32,
        stepped(0x6649f834u32) == 0x21d2bd4du32,
        stepped(0x7b4cc88cu32) == 0xe47583c3u32,
        stepped(0xb0101b29u32) == 0x42028877u32,
        stepped(0x36846987u32) == 0x73ea92eau32,
        stepped(0xfdd8ba22u32) == 0xd59d995eu32,
        stepped(0x08f40f5au32) == 0x8bb64ce5u32,
        stepped(0xc3a8dcffu32) == 0x2dc14751u32,
        stepped(0x453cae51u32) == 0x1c295dccu32,
        stepped(0x8e607df4u32) == 0xba5e5678u32,
        stepped(0x93654d4cu32) == 0x7ff968f6u32,
        stepped(0x58399ee9u32) == 0xd98e6342u32,
        stepped(0xdeadec47u32) == 0xe86679dfu32,
        stepped(0x15f13fe2u32) == 0x4e11726bu32,
        stepped(0xe4a78d37u32) == 0xb8590282u32,
        stepped(0x2ffb5e92u32) == 0x1e2e0936u32,
        stepped(0xa96f2c3cu32) == 0x2fc613abu32,
        stepped(0x6233ff99u32) == 0x89b1181fu32,
        stepped(0x7f36cf21u32) == 0x4c162691u32,
        stepped(0xb46a1c84u32) == 0xea612d25u32,
        stepped(0x32fe6e2au32) == 0xdb8937b8u32,
        stepped(0xf9a2bd8fu32) == 0x7dfe3c0cu32,
        stepped(0x0b220dc1u32) == 0xec68d02bu32,
        stepped(0xc07ede64u32) == 0x4a1fdb9fu32,
        stepped(0x46eaaccau32) == 0x7bf7c102u32,
        stepped(0x8db67f6fu32) == 0xdd80cab6u32,
        stepped(0x90b34fd7u32) == 0x1827f438u32,
        stepped(0x5bef9c72u32) == 0xbe50ff8cu32,
        stepped(0xdd7beedcu32) == 0x8fb8e511u32,
        stepped(0x16273d79u32) == 0x29cfeea5u32,
        stepped(0xe7718facu32) == 0xdf879e4cu32,
        stepped(0x2c2d5c09u32) == 0x79f095f8u32,
        stepped(0xaab92ea7u32) == 0x48188f65u32,
        stepped(0x61e5fd02u32) == 0xee6f84d1u32,
        stepped(0x7ce0cdbau32) == 0x2bc8ba5fu32,
        stepped(0xb7bc1e1fu32) == 0x8dbfb1ebu32,
        stepped(0x31286cb1u32) == 0xbc57ab76u32,
        stepped(0xfa74bf14u32) == 0x1a20a0c2u32,
        stepped(0x1eb014d8u32) == 0x8816eaf2u32,
        stepped(0xd5ecc77du32) == 0x2e61e146u32,
        stepped(0x5378b5d3u32) == 0x1f89fbdbu32,
        stepped(0x98246676u32) == 0xb9fef06fu32,
        stepped(0x852156ceu32) == 0x7c59cee1u32,
        stepped(0x4e7d856bu32) == 0xda2ec555u32,
        stepped(0xc8e9f7c5u32) == 0xebc6dfc8u32,
        stepped(0x03b52460u32) == 0x4db1d47cu32,
        stepped(0xf2e396b5u32) == 0xbbf9a495u32,
        stepped(0x39bf4510u32) == 0x1d8eaf21u32,
        stepped(0xbf2b37beu32) == 0x2c66b5bcu32,
        stepped(0x7477e41bu32) == 0x8a11be08u32,
        stepped(0x6972d4a3u32) == 0x4fb68086u32,
        stepped(0xa22e0706u32) == 0xe9c18b32u32,
        stepped(0x24ba75a8u32) == 0xd82991afu32,
        stepped(0xefe6a60du32) == 0x7e5e9a1bu32,
        stepped(0x1d661643u32) == 0xefc8763cu32,
        stepped(0xd63ac5e6u32) == 0x49bf7d88u32,
        stepped(0x50aeb748u32) == 0x78576715u32,
        stepped(0x9bf264edu32) == 0xde206ca1u32,
        stepped(0x86f75455u32) == 0x1b87522fu32,
        stepped(0x4dab87f0u32) == 0xbdf0599bu32,
        stepped(0xcb3ff55eu32) == 0x8c184306u32,
        stepped(0x006326fbu32) == 0x2a6f48b2u32,
        stepped(0xf135942eu32) == 0xdc27385bu32,
        stepped(0x3a69478bu32) == 0x7a5033efu32,
        stepped(0xbcfd3525u32) == 0x4bb82972u32,
        stepped(0x77a1e680u32) == 0xedcf22c6u32,
        stepped(0x6aa4d638u32) == 0x28681c48u32,
        stepped(0xa1f8059du32) == 0x8e1f17fcu32,
        stepped(0x276c7733u32) == 0xbff70d61u32,
        stepped(0xec30a496u32) == 0x198006d5u32,
        stepped(0x191c11eeu32) == 0x47abd36eu32,
        stepped(0xd240c24bu32) == 0xe1dcd8dau32,
        stepped(0x54d4b0e5u32) == 0xd034c247u32,
        stepped(0x9f886340u32) == 0x7643c9f3u32,
        stepped(0x828d53f8u32) == 0xb3e4f77du32,
        stepped(0x49d1805du32) == 0x1593fcc9u32,
        stepped(0xcf45f2f3u32) == 0x247be654u32,
        stepped(0x04192156u32) == 0x820cede0u32,
        stepped(0xf54f9383u32) == 0x74449d09u32,
        stepped(0x3e134026u32) == 0xd23396bdu32,
        stepped(0xb8873288u32) == 0xe3db8c20u32,
        stepped(0x73dbe12du32) == 0x45ac8794u32,
        stepped(0x6eded195u32) == 0x800bb91au32,
        stepped(0xa5820230u32) == 0x267cb2aeu32,
        stepped(0x2316709eu32) == 0x1794a833u32,
        stepped(0xe84aa33bu32) == 0xb1e3a387u32,
        stepped(0x1aca1375u32) == 0x20754fa0u32,
        stepped(0xd196c0d0u32) == 0x86024414u32,
        stepped(0x5702b27eu32) == 0xb7ea5e89u32,
        stepped(0x9c5e61dbu32) == 0x119d553du32,
        stepped(0x815b5163u32) == 0xd43a6bb3u32,
        stepped(0x4a0782c6u32) == 0x724d6007u32,
        stepped(0xcc93f068u32) == 0x43a57a9au32,
        stepped(0x07cf23cdu32) == 0xe5d2712eu32,
        stepped(0xf6999118u32) == 0x139a01c7u32,
        stepped(0x3dc542bdu32) == 0xb5ed0a73u32,
        stepped(0xbb513013u32) == 0x840510eeu32,
        stepped(0x700de3b6u32) == 0x22721b5au32,
        stepped(0x6d08d30eu32) == 0xe7d525d4u32,
        stepped(0xa65400abu32) == 0x41a22e60u32,
        stepped(0x20c07205u32) == 0x704a34fdu32,
        stepped(0xeb9ca1a0u32) == 0xd63d3f49u32,
        stepped(0x11e81eb4u32) == 0xcc1d9f8bu32,
        stepped(0xdab4cd11u32) == 0x6a6a943fu32,
        stepped(0x5c20bfbfu32) == 0x5b828ea2u32,
        stepped(0x977c6c1au32) == 0xfdf58516u32,
        stepped(0x8a795ca2u32) == 0x3852bb98u32,
        stepped(0x41258f07u32) == 0x9e25b02cu32,
        stepped(0xc7b1fda9u32) == 0xafcdaab1u32,
        stepped(0x0ced2e0cu32) == 0x09baa105u32,
        stepped(0xfdbb9cd9u32) == 0xfff2d1ecu32,
        stepped(0x36e74f7cu32) == 0x5985da58u32,
        stepped(0xb0733dd2u32) == 0x686dc0c5u32,
        stepped(0x7b2fee77u32) == 0xce1acb71u32,
        stepped(0x662adecfu32) == 0x0bbdf5ffu32,
        stepped(0xad760d6au32) == 0xadcafe4bu32,
        stepped(0x2be27fc4u32) == 0x9c22e4d6u32,
        stepped(0xe0beac61u32) == 0x3a55ef62u32,
        stepped(0x123e1c2fu32) == 0xabc30345u32,
        stepped(0xd962cf8au32) == 0x0db408f1u32,
        stepped(0x5ff6bd24u32) == 0x3c5c126cu32,
        stepped(0x94aa6e81u32) == 0x9a2b19d8u32,
        stepped(0x89af5e39u32) == 0x5f8c2756u32,
        stepped(0x42f38d9cu32) == 0xf9fb2ce2u32,
        stepped(0xc467ff32u32) == 0xc813367fu32,
        stepped(0x0f3b2c97u32) == 0x6e643dcbu32,
        stepped(0xfe6d9e42u32) == 0x982c4d22u32,
        stepped(0x35314de7u32) == 0x3e5b4696u32,
        stepped(0xb3a53f49u32) == 0x0fb35c0bu32,
        stepped(0x78f9ececu32) == 0xa9c457bfu32,
        stepped(0x65fcdc54u32) == 0x6c636931u32,
        stepped(0xaea00ff1u32) == 0xca146285u32,
        stepped(0x28347d5fu32) == 0xfbfc7818u32,
        stepped(0xe368aefau32) == 0x5d8b73acu32,
        stepped(0x16441b82u32) == 0x03a0a617u32,
        stepped(0xdd18c827u32) == 0xa5d7ada3u32,
        stepped(0x5b8cba89u32) == 0x943fb73eu32,
        stepped(0x90d0692cu32) == 0x3248bc8au32,
        stepped(0x8dd55994u32) == 0xf7ef8204u32,
        stepped(0x46898a31u32) == 0x519889b0u32,
        stepped(0xc01df89fu32) == 0x6070932du32,
        stepped(0x0b412b3au32) == 0xc6079899u32,
        stepped(0xfa1799efu32) == 0x304fe870u32,
        stepped(0x314b4a4au32) == 0x9638e3c4u32,
        stepped(0xb7df38e4u32) == 0xa7d0f959u32,
        stepped(0x7c83eb41u32) == 0x01a7f2edu32,
        stepped(0x6186dbf9u32) == 0xc400cc63u32,
        stepped(0xaada085cu32) == 0x6277c7d7u32,
        stepped(0x2c4e7af2u32) == 0x539fdd4au32,
        stepped(0xe712a957u32) == 0xf5e8d6feu32,
        stepped(0x15921919u32) == 0x647e3ad9u32,
        stepped(0xdececabcu32) == 0xc209316du32,
        stepped(0x585ab812u32) == 0xf3e12bf0u32,
        stepped(0x93066bb7u32) == 0x55962044u32,
        stepped(0x8e035b0fu32) == 0x90311ecau32,
        stepped(0x455f88aau32) == 0x3646157eu32,
        stepped(0xc3cbfa04u32) == 0x07ae0fe3u32,
        stepped(0x089729a1u32) == 0xa1d90457u32,
        stepped(0xf9c19b74u32) == 0x579174beu32,
        stepped(0x329d48d1u32) == 0xf1e67f0au32,
        stepped(0xb4093a7fu32) == 0xc00e6597u32,
        stepped(0x7f55e9dau32) == 0x66796e23u32,
        stepped(0x6250d962u32) == 0xa3de50adu32,
        stepped(0xa90c0ac7u32) == 0x05a95b19u32,
        stepped(0x2f987869u32) == 0x34414184u32,
        stepped(0xe4c4abccu32) == 0x92364a30u32,
{
}

proof fn lemma_row_7(i: int)
    requires
        0 <= i < 256,
    ensures
        CRC32_TABLE[7][i] == shift_byte(CRC32_TABLE[6][i]),
{
    assert(CRC32_TABLE[7][i] == stepped(CRC32_TABLE[6][i])) by {
        lemma_byte_cases(i);
        lemma_steps_7();
    }
    reveal(stepped);
}

/// What each entry of table 6 becomes over a zero byte.
proof fn lemma_steps_7()
    by (bit_vector)
    ensures
        stepped(0x00000000u32) == 0x00000000u32,
        stepped(0xa6770bb4u32) == 0xccaa009eu32,
        stepped(0x979f1129u32) == 0x4225077du32,
        stepped(0x31e81a9du32) == 0x8e8f07e3u32,
        stepped(0xf44f2413u32) == 0x844a0efau32,
        stepped(0x52382fa7u32) == 0x48e00e64u32,
        stepped(0x63d0353au32) == 0xc66f0987u32,
        stepped(0xc5a73e8eu32) == 0x0ac50919u32,
        stepped(0x33ef4e67u32) == 0xd3e51bb5u32,
        stepped(0x959845d3u32) == 0x1f4f1b2bu32,
        stepped(0xa4705f4eu32) == 0x91c01cc8u32,
        stepped(0x020754fau32) == 0x5d6a1c56u32,
        stepped(0xc7a06a74u32) == 0x57af154fu32,
        stepped(0x61d761c0u32) == 0x9b0515d1u32,
        stepped(0x503f7b5du32) == 0x158a1232u32,
        stepped(0xf64870e9u32) == 0xd92012acu32,
        stepped(0x67de9cceu32) == 0x7cbb312bu32,
        stepped(0xc1a9977au32) == 0xb01131b5u32,
        stepped(0xf0418de7u32) == 0x3e9e3656u32,
        stepped(0x56368653u32) == 0xf23436c8u32,
        stepped(0x9391b8ddu32) == 0xf8f13fd1u32,
        stepped(0x35e6b369u32) == 0x345b3f4fu32,
        stepped(0x040ea9f4u32) == 0xbad438acu32,
        stepped(0xa279a240u32) == 0x767e3832u32,
        stepped(0x5431d2a9u32) == 0xaf5e2a9eu32,
        stepped(0xf246d91du32) == 0x63f42a00u32,
        stepped(0xc3aec380u32) == 0xed7b2de3u32,
        stepped(0x65d9c834u32) == 0x21d12d7du32,
        stepped(0xa07ef6bau32) == 0x2b142464u32,
        stepped(0x0609fd0eu32) == 0xe7be24fau32,
        stepped(0x37e1e793u32) == 0x69312319u32,
        stepped(0x9196ec27u32) == 0xa59b2387u32,
        stepped(0xcfbd399cu32) == 0xf9766256u32,
        stepped(0x69ca3228u32) == 0x35dc62c8u32,
        stepped(0x582228b5u32) == 0xbb53652bu32,
        stepped(0xfe552301u32) == 0x77f965b5u32,
        stepped(0x3bf21d8fu32) == 0x7d3c6cacu32,
        stepped(0x9d85163bu32) == 0xb1966c32u32,
        stepped(0xac6d0ca6u32) == 0x3f196bd1u32,
        stepped(0x0a1a0712u32) == 0xf3b36b4fu32,
        stepped(0xfc5277fbu32) == 0x2a9379e3u32,
        stepped(0x5a257c4fu32) == 0xe639797du32,
        stepped(0x6bcd66d2u32) == 0x68b67e9eu32,
        stepped(0xcdba6d66u32) == 0xa41c7e00u32,
        stepped(0x081d53e8u32) == 0xaed97719u32,
        stepped(0xae6a585cu32) == 0x62737787u32,
        stepped(0x9f8242c1u32) == 0xecfc7064u32,
        stepped(0x39f54975u32) == 0x205670fau32,
        stepped(0xa863a552u32) == 0x85cd537du32,
        stepped(0x0e14aee6u32) == 0x496753e3u32,
        stepped(0x3ffcb47bu32) == 0xc7e85400u32,
        stepped(0x998bbfcfu32) == 0x0b42549eu32,
        stepped(0x5c2c8141u32) == 0x01875d87u32,
        stepped(0xfa5b8af5u32) == 0xcd2d5d19u32,
        stepped(0xcbb39068u32) == 0x43a25afau32,
        stepped(0x6dc49bdcu32) == 0x8f085a64u32,
        stepped(0x9b8ceb35u32) == 0x562848c8u32,
        stepped(0x3dfbe081u32) == 0x9a824856u32,
        stepped(0x0c13fa1cu32) == 0x140d4fb5u32,
        stepped(0xaa64f1a8u32) == 0xd8a74f2bu32,
        stepped(0x6fc3cf26u32) == 0xd2624632u32,
        stepped(0xc9b4c492u32) == 0x1ec846acu32,
        stepped(0xf85cde0fu32) == 0x9047414fu32,
        stepped(0x5e2bd5bbu32) == 0x5ced41d1u32,
        stepped(0x440b7579u32) == 0x299dc2edu32,
        stepped(0xe27c7ecdu32) == 0xe537c273u32,
        stepped(0xd3946450u32) == 0x6bb8c590u32,
        stepped(0x75e36fe4u32) == 0xa712c50eu32,
        stepped(0xb044516au32) == 0xadd7cc17u32,
        stepped(0x16335adeu32) == 0x617dcc89u32,
        stepped(0x27db4043u32) == 0xeff2cb6au32,
        stepped(0x81ac4bf7u32) == 0x2358cbf4u32,
        stepped(0x77e43b1eu32) == 0xfa78d958u32,
        stepped(0xd19330aau32) == 0x36d2d9c6u32,
        stepped(0xe07b2a37u32) == 0xb85dde25u32,
        stepped(0x460c2183u32) == 0x74f7debbu32,
        stepped(0x83ab1f0du32) == 0x7e32d7a2u32,
        stepped(0x25dc14b9u32) == 0xb298d73cu32,
        stepped(0x14340e24u32) == 0x3c17d0dfu32,
        stepped(0xb2430590u32) == 0xf0bdd041u32,
        stepped(0x23d5e9b7u32) == 0x5526f3c6u32,
        stepped(0x85a2e203u32) == 0x998cf358u32,
        stepped(0xb44af89eu32) == 0x1703f4bbu32,
        stepped(0x123df32au32) == 0xdba9f425u32,
        stepped(0xd79acda4u32) == 0xd16cfd3cu32,
        stepped(0x71edc610u32) == 0x1dc6fda2u32,
        stepped(0x4005dc8du32) == 0x9349fa41u32,
        stepped(0xe672d739u32) == 0x5fe3fadfu32,
        stepped(0x103aa7d0u32) == 0x86c3e873u32,
        stepped(0xb64dac64u32) == 0x4a69e8edu32,
        stepped(0x87a5b6f9u32) == 0xc4e6ef0eu32,
        stepped(0x21d2bd4du32) == 0x084cef90u32,
        stepped(0xe47583c3u32) == 0x0289e689u32,
        stepped(0x42028877u32) == 0xce23e617u32,
        stepped(0x73ea92eau32) == 0x40ace1f4u32,
        stepped(0xd59d995eu32) == 0x8c06e16au32,
        stepped(0x8bb64ce5u32) == 0xd0eba0bbu32,
        stepped(0x2dc14751u32) == 0x1c41a025u32,
        stepped(0x1c295dccu32) == 0x92cea7c6u32,
        stepped(0xba5e5678u32) == 0x5e64a758u32,
        stepped(0x7ff968f6u32) == 0x54a1ae41u32,
        stepped(0xd98e6342u32) == 0x980baedfu32,
        stepped(0xe86679dfu32) == 0x1684a93cu32,
        stepped(0x4e11726bu32) == 0xda2ea9a2u32,
        stepped(0xb8590282u32) == 0x030ebb0eu32,
        stepped(0x1e2e0936u32) == 0xcfa4bb90u32,
        stepped(0x2fc613abu32) == 0x412bbc73u32,
        stepped(0x89b1181fu32) == 0x8d81bcedu32,
        stepped(0x4c162691u32) == 0x8744b5f4u32,
        stepped(0xea612d25u32) == 0x4beeb56au32,
        stepped(0xdb8937b8u32) == 0xc561b289u32,
        stepped(0x7dfe3c0cu32) == 0x09cbb217u32,
        stepped(0xec68d02bu32) == 0xac509190u32,
        stepped(0x4a1fdb9fu32) == 0x60fa910eu32,
        stepped(0x7bf7c102u32) == 0xee7596edu32,
        stepped(0xdd80cab6u32) == 0x22df9673u32,
        stepped(0x1827f438u32) == 0x281a9f6au32,
        stepped(0xbe50ff8cu32) == 0xe4b09ff4u32,
        stepped(0x8fb8e511u32) == 0x6a3f9817u32,
        stepped(0x29cfeea5u32) == 0xa6959889u32,
        stepped(0xdf879e4cu32) == 0x7fb58a25u32,
        stepped(0x79f095f8u32) == 0xb31f8abbu32,
        stepped(0x48188f65u32) == 0x3d908d58u32,
        stepped(0xee6f84d1u32) == 0xf13a8dc6u32,
        stepped(0x2bc8ba5fu32) == 0xfbff84dfu32,
        stepped(0x8dbfb1ebu32) == 0x37558441u32,
        stepped(0xbc57ab76u32) == 0xb9da83a2u32,
        stepped(0x1a20a0c2u32) == 0x7570833cu32,
        stepped(0x8816eaf2u32) == 0x533b85dau32,
        stepped(0x2e61e146u32) == 0x9f918544u32,
        stepped(0x1f89fbdbu32) == 0x111e82a7u32,
        stepped(0xb9fef06fu32) == 0xddb48239u32,
        stepped(0x7c59cee1u32) == 0xd7718b20u32,
        stepped(0xda2ec555u32) == 0x1bdb8bbeu32,
        stepped(0xebc6dfc8u32) == 0x95548c5du32,
        stepped(0x4db1d47cu32) == 0x59fe8cc3u32,
        stepped(0xbbf9a495u32) == 0x80de9e6fu32,
        stepped(0x1d8eaf21u32) == 0x4c749ef1u32,
        stepped(0x2c66b5bcu32) == 0xc2fb9912u32,
        stepped(0x8a11be08u32) == 0x0e51998cu32,
        stepped(0x4fb68086u32) == 0x04949095u32,
        stepped(0xe9c18b32u32) == 0xc83e900bu32,
        stepped(0xd82991afu32) == 0x46b197e8u32,
        stepped(0x7e5e9a1bu32) == 0x8a1b9776u32,
        stepped(0xefc8763cu32) == 0x2f80b4f1u32,
        stepped(0x49bf7d88u32) == 0xe32ab46fu32,
        stepped(0x78576715u32) == 0x6da5b38cu32,
        stepped(0xde206ca1u32) == 0xa10fb312u32,
        stepped(0x1b87522fu32) == 0xabcaba0bu32,
        stepped(0xbdf0599bu32) == 0x6760ba95u32,
        stepped(0x8c184306u32) == 0xe9efbd76u32,
        stepped(0x2a6f48b2u32) == 0x2545bde8u32,
        stepped(0xdc27385bu32) == 0xfc65af44u32,
        stepped(0x7a5033efu32) == 0x30cfafdau32,
        stepped(0x4bb82972u32) == 0xbe40a839u32,
        stepped(0xedcf22c6u32) == 0x72eaa8a7u32,
        stepped(0x28681c48u32) == 0x782fa1beu32,
        stepped(0x8e1f17fcu32) == 0xb485a120u32,
        stepped(0xbff70d61u32) == 0x3a0aa6c3u32,
        stepped(0x198006d5u32) == 0xf6a0a65du32,
        stepped(0x47abd36eu32) == 0xaa4de78cu32,
        stepped(0xe1dcd8dau32) == 0x66e7e712u32,
        stepped(0xd034c247u32) == 0xe868e0f1u32,
        stepped(0x7643c9f3u32) == 0x24c2e06fu32,
        stepped(0xb3e4f77du32) == 0x2e07e976u32,
        stepped(0x1593fcc9u32) == 0xe2ade9e8u32,
        stepped(0x247be654u32) == 0x6c22ee0bu32,
        stepped(0x820cede0u32) == 0xa088ee95u32,
        stepped(0x74449d09u32) == 0x79a8fc39u32,
        stepped(0xd23396bdu32) == 0xb502fca7u32,
        stepped(0xe3db8c20u32) == 0x3b8dfb44u32,
        stepped(0x45ac8794u32) == 0xf727fbdau32,
        stepped(0x800bb91au32) == 0xfde2f2c3u32,
        stepped(0x267cb2aeu32) == 0x3148f25du32,
        stepped(0x1794a833u32) == 0xbfc7f5beu32,
        stepped(0xb1e3a387u32) == 0x736df520u32,
        stepped(0x20754fa0u32) == 0xd6f6d6a7u32,
        stepped(0x86024414u32) == 0x1a5cd639u32,
        stepped(0xb7ea5e89u32) == 0x94d3d1dau32,
        stepped(0x119d553du32) == 0x5879d144u32,
        stepped(0xd43a6bb3u32) == 0x52bcd85du32,
        stepped(0x724d6007u32) == 0x9e16d8c3u32,
        stepped(0x43a57a9au32) == 0x1099df20u32,
        stepped(0xe5d2712eu32) == 0xdc33dfbeu32,
        stepped(0x139a01c7u32) == 0x0513cd12u32,
        stepped(0xb5ed0a73u32) == 0xc9b9cd8cu32,
        stepped(0x840510eeu32) == 0x4736ca6fu32,
        stepped(0x22721b5au32) == 0x8b9ccaf1u32,
        stepped(0xe7d525d4u32) == 0x8159c3e8u32,
        stepped(0x41a22e60u32) == 0x4df3c376u32,
        stepped(0x704a34fdu32) == 0xc37cc495u32,
        stepped(0xd63d3f49u32) == 0x0fd6c40bu32,
        stepped(0xcc1d9f8bu32) == 0x7aa64737u32,
        stepped(0x6a6a943fu32) == 0xb60c47a9u32,
        stepped(0x5b828ea2u32) == 0x3883404au32,
        stepped(0xfdf58516u32) == 0xf42940d4u32,
        stepped(0x3852bb98u32) == 0xfeec49cdu32,
        stepped(0x9e25b02cu32) == 0x32464953u32,
        stepped(0xafcdaab1u32) == 0xbcc94eb0u32,
        stepped(0x09baa105u32) == 0x70634e2eu32,
        stepped(0xfff2d1ecu32) == 0xa9435c82u32,
        stepped(0x5985da58u32) == 0x65e95c1cu32,
        stepped(0x686dc0c5u32) == 0xeb665bffu32,
        stepped(0xce1acb71u32) == 0x27cc5b61u32,
        stepped(0x0bbdf5ffu32) == 0x2d095278u32,
        stepped(0xadcafe4bu32) == 0xe1a352e6u32,
        stepped(0x9c22e4d6u32) == 0x6f2c5505u32,
        stepped(0x3a55ef62u32) == 0xa386559bu32,
        stepped(0xabc30345u32) == 0x061d761cu32,
        stepped(0x0db408f1u32) == 0xcab77682u32,
        stepped(0x3c5c126cu32) == 0x44387161u32,
        stepped(0x9a2b19d8u32) == 0x889271ffu32,
        stepped(0x5f8c2756u32) == 0x825778e6u32,
        stepped(0xf9fb2ce2u32) == 0x4efd7878u32,
        stepped(0xc813367fu32) == 0xc0727f9bu32,
        stepped(0x6e643dcbu32) == 0x0cd87f05u32,
        stepped(0x982c4d22u32) == 0xd5f86da9u32,
        stepped(0x3e5b4696u32) == 0x19526d37u32,
        stepped(0x0fb35c0bu32) == 0x97dd6ad4u32,
        stepped(0xa9c457bfu32) == 0x5b776a4au32,
        stepped(0x6c636931u32) == 0x51b26353u32,
        stepped(0xca146285u32) == 0x9d1863cdu32,
        stepped(0xfbfc7818u32) == 0x1397642eu32,
        stepped(0x5d8b73acu32) == 0xdf3d64b0u32,
        stepped(0x03a0a617u32) == 0x83d02561u32,
        stepped(0xa5d7ada3u32) == 0x4f7a25ffu32,
        stepped(0x943fb73eu32) == 0xc1f5221cu32,
        stepped(0x3248bc8au32) == 0x0d5f2282u32,
        stepped(0xf7ef8204u32) == 0x079a2b9bu32,
        stepped(0x519889b0u32) == 0xcb302b05u32,
        stepped(0x6070932du32) == 0x45bf2ce6u32,
        stepped(0xc6079899u32) == 0x89152c78u32,
        stepped(0x304fe870u32) == 0x50353ed4u32,
        stepped(0x9638e3c4u32) == 0x9c9f3e4au32,
        stepped(0xa7d0f959u32) == 0x121039a9u32,
        stepped(0x01a7f2edu32) == 0xdeba3937u32,
        stepped(0xc400cc63u32) == 0xd47f302eu32,
        stepped(0x6277c7d7u32) == 0x18d530b0u32,
        stepped(0x539fdd4au32) == 0x965a3753u32,
        stepped(0xf5e8d6feu32) == 0x5af037cdu32,
        stepped(0x647e3ad9u32) == 0xff6b144au32,
        stepped(0xc209316du32) == 0x33c114d4u32,
        stepped(0xf3e12bf0u32) == 0xbd4e1337u32,
        stepped(0x55962044u32) == 0x71e413a9u32,
        stepped(0x90311ecau32) == 0x7b211ab0u32,
        stepped(0x3646157eu32) == 0xb78b1a2eu32,
        stepped(0x07ae0fe3u32) == 0x39041dcdu32,
        stepped(0xa1d90457u32) == 0xf5ae1d53u32,
        stepped(0x579174beu32) == 0x2c8e0fffu32,
        stepped(0xf1e67f0au32) == 0xe0240f61u32,
        stepped(0xc00e6597u32) == 0x6eab0882u32,
        stepped(0x66796e23u32) == 0xa201081cu32,
        stepped(0xa3de50adu32) == 0xa8c40105u32,
        stepped(0x05a95b19u32) == 0x646e019bu32,
        stepped(0x34414184u32) == 0xeae10678u32,
        stepped(0x92364a30u32) == 0x264b06e6u32,
{
}

proof fn lemma_row_8(i: int)
    requires
        0 <= i < 256,
    ensures
        CRC32_TABLE[8][i] == shift_byte(CRC32_TABLE[7][i]),
{
    assert(CRC32_TABLE[8][i] == stepped(CRC32_TABLE[7][i])) by {
        lemma_byte_cases(i);
        lemma_steps_8();
    }
    reveal(stepped);
}

/// What each entry of table 7 becomes over a zero byte.
proof fn lemma_steps_8()
    by (bit_vector)
    ensures
        stepped(0x00000000u32) == 0x00000000u32,
        stepped(0xccaa009eu32) == 0x177b1443u32,
        stepped(0x4225077du32) == 0x2ef62886u32,
        stepped(0x8e8f07e3u32) == 0x398d3cc5u32,
        stepped(0x844a0efau32) == 0x5dec510cu32,
        stepped(0x48e00e64u32) == 0x4a97454fu32,
        stepped(0xc66f0987u32) == 0x731a798au32,
        stepped(0x0ac50919u32) == 0x64616dc9u32,
        stepped(0xd3e51bb5u32) == 0xbbd8a218u32,
        stepped(0x1f4f1b2bu32) == 0xaca3b65bu32,
        stepped(0x91c01cc8u32) == 0x952e8a9eu32,
        stepped(0x5d6a1c56u32) == 0x82559eddu32,
        stepped(0x57af154fu32) == 0xe634f314u32,
        stepped(0x9b0515d1u32) == 0xf14fe757u32,
        stepped(0x158a1232u32) == 0xc8c2db92u32,
        stepped(0xd92012acu32) == 0xdfb9cfd1u32,
        stepped(0x7cbb312bu32) == 0xacc04271u32,
        stepped(0xb01131b5u32) == 0xbbbb5632u32,
        stepped(0x3e9e3656u32) == 0x82366af7u32,
        stepped(0xf23436c8u32) == 0x954d7eb4u32,
        stepped(0xf8f13fd1u32) == 0xf12c137du32,
        stepped(0x345b3f4fu32) == 0xe657073eu32,
        stepped(0xbad438acu32) == 0xdfda3bfbu32,
        stepped(0x767e3832u32) == 0xc8a12fb8u32,
        stepped(0xaf5e2a9eu32) == 0x1718e069u32,
        stepped(0x63f42a00u32) == 0x0063f42au32,
        stepped(0xed7b2de3u32) == 0x39eec8efu32,
        stepped(0x21d12d7du32) == 0x2e95dcacu32,
        stepped(0x2b142464u32) == 0x4af4b165u32,
        stepped(0xe7be24fau32) == 0x5d8fa526u32,
        stepped(0x69312319u32) == 0x640299e3u32,
        stepped(0xa59b2387u32) == 0x73798da0u32,
        stepped(0xf9766256u32) == 0x82f182a3u32,
        stepped(0x35dc62c8u32) == 0x958a96e0u32,
        stepped(0xbb53652bu32) == 0xac07aa25u32,
        stepped(0x77f965b5u32) == 0xbb7cbe66u32,
        stepped(0x7d3c6cacu32) == 0xdf1dd3afu32,
        stepped(0xb1966c32u32) == 0xc866c7ecu32,
        stepped(0x3f196bd1u32) == 0xf1ebfb29u32,
        stepped(0xf3b36b4fu32) == 0xe690ef6au32,
        stepped(0x2a9379e3u32) == 0x392920bbu32,
        stepped(0xe639797du32) == 0x2e5234f8u32,
        stepped(0x68b67e9eu32) == 0x17df083du32,
        stepped(0xa41c7e00u32) == 0x00a41c7eu32,
        stepped(0xaed97719u32) == 0x64c571b7u32,
        stepped(0x62737787u32) == 0x73be65f4u32,
        stepped(0xecfc7064u32) == 0x4a335931u32,
        stepped(0x205670fau32) == 0x5d484d72u32,
        stepped(0x85cd537du32) == 0x2e31c0d2u32,
        stepped(0x496753e3u32) == 0x394ad491u32,
        stepped(0xc7e85400u32) == 0x00c7e854u32,
        stepped(0x0b42549eu32) == 0x17bcfc17u32,
        stepped(0x01875d87u32) == 0x73dd91deu32,
        stepped(0xcd2d5d19u32) == 0x64a6859du32,
        stepped(0x43a25afau32) == 0x5d2bb958u32,
        stepped(0x8f085a64u32) == 0x4a50ad1bu32,
        stepped(0x562848c8u32) == 0x95e962cau32,
        stepped(0x9a824856u32) == 0x82927689u32,
        stepped(0x140d4fb5u32) == 0xbb1f4a4cu32,
        stepped(0xd8a74f2bu32) == 0xac645e0fu32,
        stepped(0xd2624632u32) == 0xc80533c6u32,
        stepped(0x1ec846acu32) == 0xdf7e2785u32,
        stepped(0x9047414fu32) == 0xe6f31b40u32,
        stepped(0x5ced41d1u32) == 0xf1880f03u32,
        stepped(0x299dc2edu32) == 0xde920307u32,
        stepped(0xe537c273u32) == 0xc9e91744u32,
        stepped(0x6bb8c590u32) == 0xf0642b81u32,
        stepped(0xa712c50eu32) == 0xe71f3fc2u32,
        stepped(0xadd7cc17u32) == 0x837e520bu32,
        stepped(0x617dcc89u32) == 0x94054648u32,
        stepped(0xeff2cb6au32) == 0xad887a8du32,
        stepped(0x2358cbf4u32) == 0xbaf36eceu32,
        stepped(0xfa78d958u32) == 0x654aa11fu32,
        stepped(0x36d2d9c6u32) == 0x7231b55cu32,
        stepped(0xb85dde25u32) == 0x4bbc8999u32,
        stepped(0x74f7debbu32) == 0x5cc79ddau32,
        stepped(0x7e32d7a2u32) == 0x38a6f013u32,
        stepped(0xb298d73cu32) == 0x2fdde450u32,
        stepped(0x3c17d0dfu32) == 0x1650d895u32,
        stepped(0xf0bdd041u32) == 0x012bccd6u32,
        stepped(0x5526f3c6u32) == 0x72524176u32,
        stepped(0x998cf358u32) == 0x65295535u32,
        stepped(0x1703f4bbu32) == 0x5ca469f0u32,
        stepped(0xdba9f425u32) == 0x4bdf7db3u32,
        stepped(0xd16cfd3cu32) == 0x2fbe107au32,
        stepped(0x1dc6fda2u32) == 0x38c50439u32,
        stepped(0x9349fa41u32) == 0x014838fcu32,
        stepped(0x5fe3fadfu32) == 0x16332cbfu32,
        stepped(0x86c3e873u32) == 0xc98ae36eu32,
        stepped(0x4a69e8edu32) == 0xdef1f72du32,
        stepped(0xc4e6ef0eu32) == 0xe77ccbe8u32,
        stepped(0x084cef90u32) == 0xf007dfabu32,
        stepped(0x0289e689u32) == 0x9466b262u32,
        stepped(0xce23e617u32) == 0x831da621u32,
        stepped(0x40ace1f4u32) == 0xba909ae4u32,
        stepped(0x8c06e16au32) == 0xadeb8ea7u32,
        stepped(0xd0eba0bbu32) == 0x5c6381a4u32,
        stepped(0x1c41a025u32) == 0x4b1895e7u32,
        stepped(0x92cea7c6u32) == 0x7295a922u32,
        stepped(0x5e64a758u32) == 0x65eebd61u32,
        stepped(0x54a1ae41u32) == 0x018fd0a8u32,
        stepped(0x980baedfu32) == 0x16f4c4ebu32,
        stepped(0x1684a93cu32) == 0x2f79f82eu32,
        stepped(0xda2ea9a2u32) == 0x3802ec6du32,
        stepped(0x030ebb0eu32) == 0xe7bb23bcu32,
        stepped(0xcfa4bb90u32) == 0xf0c037ffu32,
        stepped(0x412bbc73u32) == 0xc94d0b3au32,
        stepped(0x8d81bcedu32) == 0xde361f79u32,
        stepped(0x8744b5f4u32) == 0xba5772b0u32,
        stepped(0x4beeb56au32) == 0xad2c66f3u32,
        stepped(0xc561b289u32) == 0x94a15a36u32,
        stepped(0x09cbb217u32) == 0x83da4e75u32,
        stepped(0xac509190u32) == 0xf0a3c3d5u32,
        stepped(0x60fa910eu32) == 0xe7d8d796u32,
        stepped(0xee7596edu32) == 0xde55eb53u32,
        stepped(0x22df9673u32) == 0xc92eff10u32,
        stepped(0x281a9f6au32) == 0xad4f92d9u32,
        stepped(0xe4b09ff4u32) == 0xba34869au32,
        stepped(0x6a3f9817u32) == 0x83b9ba5fu32,
        stepped(0xa6959889u32) == 0x94c2ae1cu32,
        stepped(0x7fb58a25u32) == 0x4b7b61cdu32,
        stepped(0xb31f8abbu32) == 0x5c00758eu32,
        stepped(0x3d908d58u32) == 0x658d494bu32,
        stepped(0xf13a8dc6u32) == 0x72f65d08u32,
        stepped(0xfbff84dfu32) == 0x169730c1u32,
        stepped(0x37558441u32) == 0x01ec2482u32,
        stepped(0xb9da83a2u32) == 0x38611847u32,
        stepped(0x7570833cu32) == 0x2f1a0c04u32,
        stepped(0x533b85dau32) == 0x6655004fu32,
        stepped(0x9f918544u32) == 0x712e140cu32,
        stepped(0x111e82a7u32) == 0x48a328c9u32,
        stepped(0xddb48239u32) == 0x5fd83c8au32,
        stepped(0xd7718b20u32) == 0x3bb95143u32,
        stepped(0x1bdb8bbeu32) == 0x2cc24500u32,
        stepped(0x95548c5du32) == 0x154f79c5u32,
        stepped(0x59fe8cc3u32) == 0x02346d86u32,
        stepped(0x80de9e6fu32) == 0xdd8da257u32,
        stepped(0x4c749ef1u32) == 0xcaf6b614u32,
        stepped(0xc2fb9912u32) == 0xf37b8ad1u32,
        stepped(0x0e51998cu32) == 0xe4009e92u32,
        stepped(0x04949095u32) == 0x8061f35bu32,
        stepped(0xc83e900bu32) == 0x971ae718u32,
        stepped(0x46b197e8u32) == 0xae97dbddu32,
        stepped(0x8a1b9776u32) == 0xb9eccf9eu32,
        stepped(0x2f80b4f1u32) == 0xca95423eu32,
        stepped(0xe32ab46fu32) == 0xddee567du32,
        stepped(0x6da5b38cu32) == 0xe4636ab8u32,
        stepped(0xa10fb312u32) == 0xf3187efbu32,
        stepped(0xabcaba0bu32) == 0x97791332u32,
        stepped(0x6760ba95u32) == 0x80020771u32,
        stepped(0xe9efbd76u32) == 0xb98f3bb4u32,
        stepped(0x2545bde8u32) == 0xaef42ff7u32,
        stepped(0xfc65af44u32) == 0x714de026u32,
        stepped(0x30cfafdau32) == 0x6636f465u32,
        stepped(0xbe40a839u32) == 0x5fbbc8a0u32,
        stepped(0x72eaa8a7u32) == 0x48c0dce3u32,
        stepped(0x782fa1beu32) == 0x2ca1b12au32,
        stepped(0xb485a120u32) == 0x3bdaa569u32,
        stepped(0x3a0aa6c3u32) == 0x025799acu32,
        stepped(0xf6a0a65du32) == 0x152c8defu32,
        stepped(0xaa4de78cu32) == 0xe4a482ecu32,
        stepped(0x66e7e712u32) == 0xf3df96afu32,
        stepped(0xe868e0f1u32) == 0xca52aa6au32,
        stepped(0x24c2e06fu32) == 0xdd29be29u32,
        stepped(0x2e07e976u32) == 0xb948d3e0u32,
        stepped(0xe2ade9e8u32) == 0xae33c7a3u32,
        stepped(0x6c22ee0bu32) == 0x97befb66u32,
        stepped(0xa088ee95u32) == 0x80c5ef25u32,
        stepped(0x79a8fc39u32) == 0x5f7c20f4u32,
        stepped(0xb502fca7u32) == 0x480734b7u32,
        stepped(0x3b8dfb44u32) == 0x718a0872u32,
        stepped(0xf727fbdau32) == 0x66f11c31u32,
        stepped(0xfde2f2c3u32) == 0x029071f8u32,
        stepped(0x3148f25du32) == 0x15eb65bbu32,
        stepped(0xbfc7f5beu32) == 0x2c66597eu32,
        stepped(0x736df520u32) == 0x3b1d4d3du32,
        stepped(0xd6f6d6a7u32) == 0x4864c09du32,
        stepped(0x1a5cd639u32) == 0x5f1fd4deu32,
        stepped(0x94d3d1dau32) == 0x6692e81bu32,
        stepped(0x5879d144u32) == 0x71e9fc58u32,
        stepped(0x52bcd85du32) == 0x15889191u32,
        stepped(0x9e16d8c3u32) == 0x02f385d2u32,
        stepped(0x1099df20u32) == 0x3b7eb917u32,
        stepped(0xdc33dfbeu32) == 0x2c05ad54u32,
        stepped(0x0513cd12u32) == 0xf3bc6285u32,
        stepped(0xc9b9cd8cu32) == 0xe4c776c6u32,
        stepped(0x4736ca6fu32) == 0xdd4a4a03u32,
        stepped(0x8b9ccaf1u32) == 0xca315e40u32,
        stepped(0x8159c3e8u32) == 0xae503389u32,
        stepped(0x4df3c376u32) == 0xb92b27cau32,
        stepped(0xc37cc495u32) == 0x80a61b0fu32,
        stepped(0x0fd6c40bu32) == 0x97dd0f4cu32,
        stepped(0x7aa64737u32) == 0xb8c70348u32,
        stepped(0xb60c47a9u32) == 0xafbc170bu32,
        stepped(0x3883404au32) == 0x96312bceu32,
        stepped(0xf42940d4u32) == 0x814a3f8du32,
        stepped(0xfeec49cdu32) == 0xe52b5244u32,
        stepped(0x32464953u32) == 0xf2504607u32,
        stepped(0xbcc94eb0u32) == 0xcbdd7ac2u32,
        stepped(0x70634e2eu32) == 0xdca66e81u32,
        stepped(0xa9435c82u32) == 0x031fa150u32,
        stepped(0x65e95c1cu32) == 0x1464b513u32,
        stepped(0xeb665bffu32) == 0x2de989d6u32,
        stepped(0x27cc5b61u32) == 0x3a929d95u32,
        stepped(0x2d095278u32) == 0x5ef3f05cu32,
        stepped(0xe1a352e6u32) == 0x4988e41fu32,
        stepped(0x6f2c5505u32) == 0x7005d8dau32,
        stepped(0xa386559bu32) == 0x677ecc99u32,
        stepped(0x061d761cu32) == 0x14074139u32,
        stepped(0xcab77682u32) == 0x037c557au32,
        stepped(0x44387161u32) == 0x3af169bfu32,
        stepped(0x889271ffu32) == 0x2d8a7dfcu32,
        stepped(0x825778e6u32) == 0x49eb1035u32,
        stepped(0x4efd7878u32) == 0x5e900476u32,
        stepped(0xc0727f9bu32) == 0x671d38b3u32,
        stepped(0x0cd87f05u32) == 0x70662cf0u32,
        stepped(0xd5f86da9u32) == 0xafdfe321u32,
        stepped(0x19526d37u32) == 0xb8a4f762u32,
        stepped(0x97dd6ad4u32) == 0x8129cba7u32,
        stepped(0x5b776a4au32) == 0x9652dfe4u32,
        stepped(0x51b26353u32) == 0xf233b22du32,
        stepped(0x9d1863cdu32) == 0xe548a66eu32,
        stepped(0x1397642eu32) == 0xdcc59aabu32,
        stepped(0xdf3d64b0u32) == 0xcbbe8ee8u32,
        stepped(0x83d02561u32) == 0x3a3681ebu32,
        stepped(0x4f7a25ffu32) == 0x2d4d95a8u32,
        stepped(0xc1f5221cu32) == 0x14c0a96du32,
        stepped(0x0d5f2282u32) == 0x03bbbd2eu32,
        stepped(0x079a2b9bu32) == 0x67dad0e7u32,
        stepped(0xcb302b05u32) == 0x70a1c4a4u32,
        stepped(0x45bf2ce6u32) == 0x492cf861u32,
        stepped(0x89152c78u32) == 0x5e57ec22u32,
        stepped(0x50353ed4u32) == 0x81ee23f3u32,
        stepped(0x9c9f3e4au32) == 0x969537b0u32,
        stepped(0x121039a9u32) == 0xaf180b75u32,
        stepped(0xdeba3937u32) == 0xb8631f36u32,
        stepped(0xd47f302eu32) == 0xdc0272ffu32,
        stepped(0x18d530b0u32) == 0xcb7966bcu32,
        stepped(0x965a3753u32) == 0xf2f45a79u32,
        stepped(0x5af037cdu32) == 0xe58f4e3au32,
        stepped(0xff6b144au32) == 0x96f6c39au32,
        stepped(0x33c114d4u32) == 0x818dd7d9u32,
        stepped(0xbd4e1337u32) == 0xb800eb1cu32,
        stepped(0x71e413a9u32) == 0xaf7bff5fu32,
        stepped(0x7b211ab0u32) == 0xcb1a9296u32,
        stepped(0xb78b1a2eu32) == 0xdc6186d5u32,
        stepped(0x39041dcdu32) == 0xe5ecba10u32,
        stepped(0xf5ae1d53u32) == 0xf297ae53u32,
        stepped(0x2c8e0fffu32) == 0x2d2e6182u32,
        stepped(0xe0240f61u32) == 0x3a5575c1u32,
        stepped(0x6eab0882u32) == 0x03d84904u32,
        stepped(0xa201081cu32) == 0x14a35d47u32,
        stepped(0xa8c40105u32) == 0x70c2308eu32,
        stepped(0x646e019bu32) == 0x67b924cdu32,
        stepped(0xeae10678u32) == 0x5e341808u32,
        stepped(0x264b06e6u32) == 0x494f0c4bu32,
{
}

proof fn lemma_row_9(i: int)
    requires
        0 <= i < 256,
    ensures
        CRC32_TABLE[9][i] == shift_byte(CRC32_TABLE[8][i]),
{
    assert(CRC32_TABLE[9][i] == stepped(CRC32_TABLE[8][i])) by {
        lemma_byte_cases(i);
        lemma_steps_9();
    }
    reveal(stepped);
}

/// What each entry of table 8 becomes over a zero byte.
proof fn lemma_steps_9()
    by (bit_vector)
    ensures
        stepped(0x00000000u32) == 0x00000000u32,
        stepped(0x177b1443u32) == 0xefc26b3eu32,
        stepped(0x2ef62886u32) == 0x04f5d03du32,
        stepped(0x398d3cc5u32) == 0xeb37bb03u32,
        stepped(0x5dec510cu32) == 0x09eba07au32,
        stepped(0x4a97454fu32) == 0xe629cb44u32,
        stepped(0x731a798au32) == 0x0d1e7047u32,
        stepped(0x64616dc9u32) == 0xe2dc1b79u32,
        stepped(0xbbd8a218u32) == 0x13d740f4u32,
        stepped(0xaca3b65bu32) == 0xfc152bcau32,
        stepped(0x952e8a9eu32) == 0x172290c9u32,
        stepped(0x82559eddu32) == 0xf8e0fbf7u32,
        stepped(0xe634f314u32) == 0x1a3ce08eu32,
        stepped(0xf14fe757u32) == 0xf5fe8bb0u32,
        stepped(0xc8c2db92u32) == 0x1ec930b3u32,
        stepped(0xdfb9cfd1u32) == 0xf10b5b8du32,
        stepped(0xacc04271u32) == 0x27ae81e8u32,
        stepped(0xbbbb5632u32) == 0xc86cead6u32,
        stepped(0x82366af7u32) == 0x235b51d5u32,
        stepped(0x954d7eb4u32) == 0xcc993aebu32,
        stepped(0xf12c137du32) == 0x2e452192u32,
        stepped(0xe657073eu32) == 0xc1874aacu32,
        stepped(0xdfda3bfbu32) == 0x2ab0f1afu32,
        stepped(0xc8a12fb8u32) == 0xc5729a91u32,
        stepped(0x1718e069u32) == 0x3479c11cu32,
        stepped(0x0063f42au32) == 0xdbbbaa22u32,
        stepped(0x39eec8efu32) == 0x308c1121u32,
        stepped(0x2e95dcacu32) == 0xdf4e7a1fu32,
        stepped(0x4af4b165u32) == 0x3d926166u32,
        stepped(0x5d8fa526u32) == 0xd2500a58u32,
        stepped(0x640299e3u32) == 0x3967b15bu32,
        stepped(0x73798da0u32) == 0xd6a5da65u32,
        stepped(0x82f182a3u32) == 0x4f5d03d0u32,
        stepped(0x958a96e0u32) == 0xa09f68eeu32,
        stepped(0xac07aa25u32) == 0x4ba8d3edu32,
        stepped(0xbb7cbe66u32) == 0xa46ab8d3u32,
        stepped(0xdf1dd3afu32) == 0x46b6a3aau32,
        stepped(0xc866c7ecu32) == 0xa974c894u32,
        stepped(0xf1ebfb29u32) == 0x42437397u32,
        stepped(0xe690ef6au32) == 0xad8118a9u32,
        stepped(0x392920bbu32) == 0x5c8a4324u32,
        stepped(0x2e5234f8u32) == 0xb348281au32,
        stepped(0x17df083du32) == 0x587f9319u32,
        stepped(0x00a41c7eu32) == 0xb7bdf827u32,
        stepped(0x64c571b7u32) == 0x5561e35eu32,
        stepped(0x73be65f4u32) == 0xbaa38860u32,
        stepped(0x4a335931u32) == 0x51943363u32,
        stepped(0x5d484d72u32) == 0xbe56585du32,
        stepped(0x2e31c0d2u32) == 0x68f38238u32,
        stepped(0x394ad491u32) == 0x8731e906u32,
        stepped(0x00c7e854u32) == 0x6c065205u32,
        stepped(0x17bcfc17u32) == 0x83c4393bu32,
        stepped(0x73dd91deu32) == 0x61182242u32,
        stepped(0x64a6859du32) == 0x8eda497cu32,
        stepped(0x5d2bb958u32) == 0x65edf27fu32,
        stepped(0x4a50ad1bu32) == 0x8a2f9941u32,
        stepped(0x95e962cau32) == 0x7b24c2ccu32,
        stepped(0x82927689u32) == 0x94e6a9f2u32,
        stepped(0xbb1f4a4cu32) == 0x7fd112f1u32,
        stepped(0xac645e0fu32) == 0x901379cfu32,
        stepped(0xc80533c6u32) == 0x72cf62b6u32,
        stepped(0xdf7e2785u32) == 0x9d0d0988u32,
        stepped(0xe6f31b40u32) == 0x763ab28bu32,
        stepped(0xf1880f03u32) == 0x99f8d9b5u32,
        stepped(0xde920307u32) == 0x9eba07a0u32,
        stepped(0xc9e91744u32) == 0x71786c9eu32,
        stepped(0xf0642b81u32) == 0x9a4fd79du32,
        stepped(0xe71f3fc2u32) == 0x758dbca3u32,
        stepped(0x837e520bu32) == 0x9751a7dau32,
        stepped(0x94054648u32) == 0x7893cce4u32,
        stepped(0xad887a8du32) == 0x93a477e7u32,
        stepped(0xbaf36eceu32) == 0x7c661cd9u32,
        stepped(0x654aa11fu32) == 0x8d6d4754u32,
        stepped(0x7231b55cu32) == 0x62af2c6au32,
        stepped(0x4bbc8999u32) == 0x89989769u32,
        stepped(0x5cc79ddau32) == 0x665afc57u32,
        stepped(0x38a6f013u32) == 0x8486e72eu32,
        stepped(0x2fdde450u32) == 0x6b448c10u32,
        stepped(0x1650d895u32) == 0x80733713u32,
        stepped(0x012bccd6u32) == 0x6fb15c2du32,
        stepped(0x72524176u32) == 0xb9148648u32,
        stepped(0x65295535u32) == 0x56d6ed76u32,
        stepped(0x5ca469f0u32) == 0xbde15675u32,
        stepped(0x4bdf7db3u32) == 0x52233d4bu32,
        stepped(0x2fbe107au32) == 0xb0ff2632u32,
        stepped(0x38c50439u32) == 0x5f3d4d0cu32,
        stepped(0x014838fcu32) == 0xb40af60fu32,
        stepped(0x16332cbfu32) == 0x5bc89d31u32,
        stepped(0xc98ae36eu32) == 0xaac3c6bcu32,
        stepped(0xdef1f72du32) == 0x4501ad82u32,
        stepped(0xe77ccbe8u32) == 0xae361681u32,
        stepped(0xf007dfabu32) == 0x41f47dbfu32,
        stepped(0x9466b262u32) == 0xa32866c6u32,
        stepped(0x831da621u32) == 0x4cea0df8u32,
        stepped(0xba909ae4u32) == 0xa7ddb6fbu32,
        stepped(0xadeb8ea7u32) == 0x481fddc5u32,
        stepped(0x5c6381a4u32) == 0xd1e70470u32,
        stepped(0x4b1895e7u32) == 0x3e256f4eu32,
        stepped(0x7295a922u32) == 0xd512d44du32,
        stepped(0x65eebd61u32) == 0x3ad0bf73u32,
        stepped(0x018fd0a8u32) == 0xd80ca40au32,
        stepped(0x16f4c4ebu32) == 0x37cecf34u32,
        stepped(0x2f79f82eu32) == 0xdcf97437u32,
        stepped(0x3802ec6du32) == 0x333b1f09u32,
        stepped(0xe7bb23bcu32) == 0xc2304484u32,
        stepped(0xf0c037ffu32) == 0x2df22fbau32,
        stepped(0xc94d0b3au32) == 0xc6c594b9u32,
        stepped(0xde361f79u32) == 0x2907ff87u32,
        stepped(0xba5772b0u32) == 0xcbdbe4feu32,
        stepped(0xad2c66f3u32) == 0x24198fc0u32,
        stepped(0x94a15a36u32) == 0xcf2e34c3u32,
        stepped(0x83da4e75u32) == 0x20ec5ffdu32,
        stepped(0xf0a3c3d5u32) == 0xf6498598u32,
        stepped(0xe7d8d796u32) == 0x198beea6u32,
        stepped(0xde55eb53u32) == 0xf2bc55a5u32,
        stepped(0xc92eff10u32) == 0x1d7e3e9bu32,
        stepped(0xad4f92d9u32) == 0xffa225e2u32,
        stepped(0xba34869au32) == 0x10604edcu32,
        stepped(0x83b9ba5fu32) == 0xfb57f5dfu32,
        stepped(0x94c2ae1cu32) == 0x14959ee1u32,
        stepped(0x4b7b61cdu32) == 0xe59ec56cu32,
        stepped(0x5c00758eu32) == 0x0a5cae52u32,
        stepped(0x658d494bu32) == 0xe16b1551u32,
        stepped(0x72f65d08u32) == 0x0ea97e6fu32,
        stepped(0x169730c1u32) == 0xec756516u32,
        stepped(0x01ec2482u32) == 0x03b70e28u32,
        stepped(0x38611847u32) == 0xe880b52bu32,
        stepped(0x2f1a0c04u32) == 0x0742de15u32,
        stepped(0x6655004fu32) == 0xe6050901u32,
        stepped(0x712e140cu32) == 0x09c7623fu32,
        stepped(0x48a328c9u32) == 0xe2f0d93cu32,
        stepped(0x5fd83c8au32) == 0x0d32b202u32,
        stepped(0x3bb95143u32) == 0xefeea97bu32,
        stepped(0x2cc24500u32) == 0x002cc245u32,
        stepped(0x154f79c5u32) == 0xeb1b7946u32,
        stepped(0x02346d86u32) == 0x04d91278u32,
        stepped(0xdd8da257u32) == 0xf5d249f5u32,
        stepped(0xcaf6b614u32) == 0x1a1022cbu32,
        stepped(0xf37b8ad1u32) == 0xf12799c8u32,
        stepped(0xe4009e92u32) == 0x1ee5f2f6u32,
        stepped(0x8061f35bu32) == 0xfc39e98fu32,
        stepped(0x971ae718u32) == 0x13fb82b1u32,
        stepped(0xae97dbddu32) == 0xf8cc39b2u32,
        stepped(0xb9eccf9eu32) == 0x170e528cu32,
        stepped(0xca95423eu32) == 0xc1ab88e9u32,
        stepped(0xddee567du32) == 0x2e69e3d7u32,
        stepped(0xe4636ab8u32) == 0xc55e58d4u32,
        stepped(0xf3187efbu32) == 0x2a9c33eau32,
        stepped(0x97791332u32) == 0xc8402893u32,
        stepped(0x80020771u32) == 0x278243adu32,
        stepped(0xb98f3bb4u32) == 0xccb5f8aeu32,
        stepped(0xaef42ff7u32) == 0x23779390u32,
        stepped(0x714de026u32) == 0xd27cc81du32,
        stepped(0x6636f465u32) == 0x3dbea323u32,
        stepped(0x5fbbc8a0u32) == 0xd6891820u32,
        stepped(0x48c0dce3u32) == 0x394b731eu32,
        stepped(0x2ca1b12au32) == 0xdb976867u32,
        stepped(0x3bdaa569u32) == 0x34550359u32,
        stepped(0x025799acu32) == 0xdf62b85au32,
        stepped(0x152c8defu32) == 0x30a0d364u32,
        stepped(0xe4a482ecu32) == 0xa9580ad1u32,
        stepped(0xf3df96afu32) == 0x469a61efu32,
        stepped(0xca52aa6au32) == 0xadaddaecu32,
        stepped(0xdd29be29u32) == 0x426fb1d2u32,
        stepped(0xb948d3e0u32) == 0xa0b3aaabu32,
        stepped(0xae33c7a3u32) == 0x4f71c195u32,
        stepped(0x97befb66u32) == 0xa4467a96u32,
        stepped(0x80c5ef25u32) == 0x4b8411a8u32,
        stepped(0x5f7c20f4u32) == 0xba8f4a25u32,
        stepped(0x480734b7u32) == 0x554d211bu32,
        stepped(0x718a0872u32) == 0xbe7a9a18u32,
        stepped(0x66f11c31u32) == 0x51b8f126u32,
        stepped(0x029071f8u32) == 0xb364ea5fu32,
        stepped(0x15eb65bbu32) == 0x5ca68161u32,
        stepped(0x2c66597eu32) == 0xb7913a62u32,
        stepped(0x3b1d4d3du32) == 0x5853515cu32,
        stepped(0x4864c09du32) == 0x8ef68b39u32,
        stepped(0x5f1fd4deu32) == 0x6134e007u32,
        stepped(0x6692e81bu32) == 0x8a035b04u32,
        stepped(0x71e9fc58u32) == 0x65c1303au32,
        stepped(0x15889191u32) == 0x871d2b43u32,
        stepped(0x02f385d2u32) == 0x68df407du32,
        stepped(0x3b7eb917u32) == 0x83e8fb7eu32,
        stepped(0x2c05ad54u32) == 0x6c2a9040u32,
        stepped(0xf3bc6285u32) == 0x9d21cbcdu32,
        stepped(0xe4c776c6u32) == 0x72e3a0f3u32,
        stepped(0xdd4a4a03u32) == 0x99d41bf0u32,
        stepped(0xca315e40u32) == 0x761670ceu32,
        stepped(0xae503389u32) == 0x94ca6bb7u32,
        stepped(0xb92b27cau32) == 0x7b080089u32,
        stepped(0x80a61b0fu32) == 0x903fbb8au32,
        stepped(0x97dd0f4cu32) == 0x7ffdd0b4u32,
        stepped(0xb8c70348u32) == 0x78bf0ea1u32,
        stepped(0xafbc170bu32) == 0x977d659fu32,
        stepped(0x96312bceu32) == 0x7c4ade9cu32,
        stepped(0x814a3f8du32) == 0x9388b5a2u32,
        stepped(0xe52b5244u32) == 0x7154aedbu32,
        stepped(0xf2504607u32) == 0x9e96c5e5u32,
        stepped(0xcbdd7ac2u32) == 0x75a17ee6u32,
        stepped(0xdca66e81u32) == 0x9a6315d8u32,
        stepped(0x031fa150u32) == 0x6b684e55u32,
        stepped(0x1464b513u32) == 0x84aa256bu32,
        stepped(0x2de989d6u32) == 0x6f9d9e68u32,
        stepped(0x3a929d95u32) == 0x805ff556u32,
        stepped(0x5ef3f05cu32) == 0x6283ee2fu32,
        stepped(0x4988e41fu32) == 0x8d418511u32,
        stepped(0x7005d8dau32) == 0x66763e12u32,
        stepped(0x677ecc99u32) == 0x89b4552cu32,
        stepped(0x14074139u32) == 0x5f118f49u32,
        stepped(0x037c557au32) == 0xb0d3e477u32,
        stepped(0x3af169bfu32) == 0x5be45f74u32,
        stepped(0x2d8a7dfcu32) == 0xb426344au32,
        stepped(0x49eb1035u32) == 0x56fa2f33u32,
        stepped(0x5e900476u32) == 0xb938440du32,
        stepped(0x671d38b3u32) == 0x520fff0eu32,
        stepped(0x70662cf0u32) == 0xbdcd9430u32,
        stepped(0xafdfe321u32) == 0x4cc6cfbdu32,
        stepped(0xb8a4f762u32) == 0xa304a483u32,
        stepped(0x8129cba7u32) == 0x48331f80u32,
        stepped(0x9652dfe4u32) == 0xa7f174beu32,
        stepped(0xf233b22du32) == 0x452d6fc7u32,
        stepped(0xe548a66eu32) == 0xaaef04f9u32,
        stepped(0xdcc59aabu32) == 0x41d8bffau32,
        stepped(0xcbbe8ee8u32) == 0xae1ad4c4u32,
        stepped(0x3a3681ebu32) == 0x37e20d71u32,
        stepped(0x2d4d95a8u32) == 0xd820664fu32,
        stepped(0x14c0a96du32) == 0x3317dd4cu32,
        stepped(0x03bbbd2eu32) == 0xdcd5b672u32,
        stepped(0x67dad0e7u32) == 0x3e09ad0bu32,
        stepped(0x70a1c4a4u32) == 0xd1cbc635u32,
        stepped(0x492cf861u32) == 0x3afc7d36u32,
        stepped(0x5e57ec22u32) == 0xd53e1608u32,
        stepped(0x81ee23f3u32) == 0x24354d85u32,
        stepped(0x969537b0u32) == 0xcbf726bbu32,
        stepped(0xaf180b75u32) == 0x20c09db8u32,
        stepped(0xb8631f36u32) == 0xcf02f686u32,
        stepped(0xdc0272ffu32) == 0x2ddeedffu32,
        stepped(0xcb7966bcu32) == 0xc21c86c1u32,
        stepped(0xf2f45a79u32) == 0x292b3dc2u32,
        stepped(0xe58f4e3au32) == 0xc6e956fcu32,
        stepped(0x96f6c39au32) == 0x104c8c99u32,
        stepped(0x818dd7d9u32) == 0xff8ee7a7u32,
        stepped(0xb800eb1cu32) == 0x14b95ca4u32,
        stepped(0xaf7bff5fu32) == 0xfb7b379au32,
        stepped(0xcb1a9296u32) == 0x19a72ce3u32,
        stepped(0xdc6186d5u32) == 0xf66547ddu32,
        stepped(0xe5ecba10u32) == 0x1d52fcdeu32,
        stepped(0xf297ae53u32) == 0xf29097e0u32,
        stepped(0x2d2e6182u32) == 0x039bcc6du32,
        stepped(0x3a5575c1u32) == 0xec59a753u32,
        stepped(0x03d84904u32) == 0x076e1c50u32,
        stepped(0x14a35d47u32) == 0xe8ac776eu32,
        stepped(0x70c2308eu32) == 0x0a706c17u32,
        stepped(0x67b924cdu32) == 0xe5b20729u32,
        stepped(0x5e341808u32) == 0x0e85bc2au32,
        stepped(0x494f0c4bu32) == 0xe147d714u32,
{
}

proof fn lemma_row_10(i: int)
    requires
        0 <= i < 256,
    ensures
        CRC32_TABLE[10][i] == shift_byte(CRC32_TABLE[9][i]),
{
    assert(CRC32_TABLE[10][i] == stepped(CRC32_TABLE[9][i])) by {
        lemma_byte_cases(i);
        lemma_steps_10();
    }
    reveal(stepped);
}

/// What each entry of table 9 becomes over a zero byte.
proof fn lemma_steps_10()
    by (bit_vector)
    ensures
        stepped(0x00000000u32) == 0x00000000u32,
        stepped(0xefc26b3eu32) == 0xc18edfc0u32,
        stepped(0x04f5d03du32) == 0x586cb9c1u32,
        stepped(0xeb37bb03u32) == 0x99e26601u32,
        stepped(0x09eba07au32) == 0xb0d97382u32,
        stepped(0xe629cb44u32) == 0x7157ac42u32,
        stepped(0x0d1e7047u32) == 0xe8b5ca43u32,
        stepped(0xe2dc1b79u32) == 0x293b1583u32,
        stepped(0x13d740f4u32) == 0xbac3e145u32,
        stepped(0xfc152bcau32) == 0x7b4d3e85u32,
        stepped(0x172290c9u32) == 0xe2af5884u32,
        stepped(0xf8e0fbf7u32) == 0x23218744u32,
        stepped(0x1a3ce08eu32) == 0x0a1a92c7u32,
        stepped(0xf5fe8bb0u32) == 0xcb944d07u32,
        stepped(0x1ec930b3u32) == 0x52762b06u32,
        stepped(0xf10b5b8du32) == 0x93f8f4c6u32,
        stepped(0x27ae81e8u32) == 0xaef6c4cbu32,
        stepped(0xc86cead6u32) == 0x6f781b0bu32,
        stepped(0x235b51d5u32) == 0xf69a7d0au32,
        stepped(0xcc993aebu32) == 0x3714a2cau32,
        stepped(0x2e452192u32) == 0x1e2fb749u32,
        stepped(0xc1874aacu32) == 0xdfa16889u32,
        stepped(0x2ab0f1afu32) == 0x46430e88u32,
        stepped(0xc5729a91u32) == 0x87cdd148u32,
        stepped(0x3479c11cu32) == 0x1435258eu32,
        stepped(0xdbbbaa22u32) == 0xd5bbfa4eu32,
        stepped(0x308c1121u32) == 0x4c599c4fu32,
        stepped(0xdf4e7a1fu32) == 0x8dd7438fu32,
        stepped(0x3d926166u32) == 0xa4ec560cu32,
        stepped(0xd2500a58u32) == 0x656289ccu32,
        stepped(0x3967b15bu32) == 0xfc80efcdu32,
        stepped(0xd6a5da65u32) == 0x3d0e300du32,
        stepped(0x4f5d03d0u32) == 0x869c8fd7u32,
        stepped(0xa09f68eeu32) == 0x47125017u32,
        stepped(0x4ba8d3edu32) == 0xdef03616u32,
        stepped(0xa46ab8d3u32) == 0x1f7ee9d6u32,
        stepped(0x46b6a3aau32) == 0x3645fc55u32,
        stepped(0xa974c894u32) == 0xf7cb2395u32,
        stepped(0x42437397u32) == 0x6e294594u32,
        stepped(0xad8118a9u32) == 0xafa79a54u32,
        stepped(0x5c8a4324u32) == 0x3c5f6e92u32,
        stepped(0xb348281au32) == 0xfdd1b152u32,
        stepped(0x587f9319u32) == 0x6433d753u32,
        stepped(0xb7bdf827u32) == 0xa5bd0893u32,
        stepped(0x5561e35eu32) == 0x8c861d10u32,
        stepped(0xbaa38860u32) == 0x4d08c2d0u32,
        stepped(0x51943363u32) == 0xd4eaa4d1u32,
        stepped(0xbe56585du32) == 0x15647b11u32,
        stepped(0x68f38238u32) == 0x286a4b1cu32,
        stepped(0x8731e906u32) == 0xe9e494dcu32,
        stepped(0x6c065205u32) == 0x7006f2ddu32,
        stepped(0x83c4393bu32) == 0xb1882d1du32,
        stepped(0x61182242u32) == 0x98b3389eu32,
        stepped(0x8eda497cu32) == 0x593de75eu32,
        stepped(0x65edf27fu32) == 0xc0df815fu32,
        stepped(0x8a2f9941u32) == 0x01515e9fu32,
        stepped(0x7b24c2ccu32) == 0x92a9aa59u32,
        stepped(0x94e6a9f2u32) == 0x53277599u32,
        stepped(0x7fd112f1u32) == 0xcac51398u32,
        stepped(0x901379cfu32) == 0x0b4bcc58u32,
        stepped(0x72cf62b6u32) == 0x2270d9dbu32,
        stepped(0x9d0d0988u32) == 0xe3fe061bu32,
        stepped(0x763ab28bu32) == 0x7a1c601au32,
        stepped(0x99f8d9b5u32) == 0xbb92bfdau32,
        stepped(0x9eba07a0u32) == 0xd64819efu32,
        stepped(0x71786c9eu32) == 0x17c6c62fu32,
        stepped(0x9a4fd79du32) == 0x8e24a02eu32,
        stepped(0x758dbca3u32) == 0x4faa7feeu32,
        stepped(0x9751a7dau32) == 0x66916a6du32,
        stepped(0x7893cce4u32) == 0xa71fb5adu32,
        stepped(0x93a477e7u32) == 0x3efdd3acu32,
        stepped(0x7c661cd9u32) == 0xff730c6cu32,
        stepped(0x8d6d4754u32) == 0x6c8bf8aau32,
        stepped(0x62af2c6au32) == 0xad05276au32,
        stepped(0x89989769u32) == 0x34e7416bu32,
        stepped(0x665afc57u32) == 0xf5699eabu32,
        stepped(0x8486e72eu32) == 0xdc528b28u32,
        stepped(0x6b448c10u32) == 0x1ddc54e8u32,
        stepped(0x80733713u32) == 0x843e32e9u32,
        stepped(0x6fb15c2du32) == 0x45b0ed29u32,
        stepped(0xb9148648u32) == 0x78bedd24u32,
        stepped(0x56d6ed76u32) == 0xb93002e4u32,
        stepped(0xbde15675u32) == 0x20d264e5u32,
        stepped(0x52233d4bu32) == 0xe15cbb25u32,
        stepped(0xb0ff2632u32) == 0xc867aea6u32,
        stepped(0x5f3d4d0cu32) == 0x09e97166u32,
        stepped(0xb40af60fu32) == 0x900b1767u32,
        stepped(0x5bc89d31u32) == 0x5185c8a7u32,
        stepped(0xaac3c6bcu32) == 0xc27d3c61u32,
        stepped(0x4501ad82u32) == 0x03f3e3a1u32,
        stepped(0xae361681u32) == 0x9a1185a0u32,
        stepped(0x41f47dbfu32) == 0x5b9f5a60u32,
        stepped(0xa32866c6u32) == 0x72a44fe3u32,
        stepped(0x4cea0df8u32) == 0xb32a9023u32,
        stepped(0xa7ddb6fbu32) == 0x2ac8f622u32,
        stepped(0x481fddc5u32) == 0xeb4629e2u32,
        stepped(0xd1e70470u32) == 0x50d49638u32,
        stepped(0x3e256f4eu32) == 0x915a49f8u32,
        stepped(0xd512d44du32) == 0x08b82ff9u32,
        stepped(0x3ad0bf73u32) == 0xc936f039u32,
        stepped(0xd80ca40au32) == 0xe00de5bau32,
        stepped(0x37cecf34u32) == 0x21833a7au32,
        stepped(0xdcf97437u32) == 0xb8615c7bu32,
        stepped(0x333b1f09u32) == 0x79ef83bbu32,
        stepped(0xc2304484u32) == 0xea17777du32,
        stepped(0x2df22fbau32) == 0x2b99a8bdu32,
        stepped(0xc6c594b9u32) == 0xb27bcebcu32,
        stepped(0x2907ff87u32) == 0x73f5117cu32,
        stepped(0xcbdbe4feu32) == 0x5ace04ffu32,
        stepped(0x24198fc0u32) == 0x9b40db3fu32,
        stepped(0xcf2e34c3u32) == 0x02a2bd3eu32,
        stepped(0x20ec5ffdu32) == 0xc32c62feu32,
        stepped(0xf6498598u32) == 0xfe2252f3u32,
        stepped(0x198beea6u32) == 0x3fac8d33u32,
        stepped(0xf2bc55a5u32) == 0xa64eeb32u32,
        stepped(0x1d7e3e9bu32) == 0x67c034f2u32,
        stepped(0xffa225e2u32) == 0x4efb2171u32,
        stepped(0x10604edcu32) == 0x8f75feb1u32,
        stepped(0xfb57f5dfu32) == 0x169798b0u32,
        stepped(0x14959ee1u32) == 0xd7194770u32,
        stepped(0xe59ec56cu32) == 0x44e1b3b6u32,
        stepped(0x0a5cae52u32) == 0x856f6c76u32,
        stepped(0xe16b1551u32) == 0x1c8d0a77u32,
        stepped(0x0ea97e6fu32) == 0xdd03d5b7u32,
        stepped(0xec756516u32) == 0xf438c034u32,
        stepped(0x03b70e28u32) == 0x35b61ff4u32,
        stepped(0xe880b52bu32) == 0xac5479f5u32,
        stepped(0x0742de15u32) == 0x6ddaa635u32,
        stepped(0xe6050901u32) == 0x77e1359fu32,
        stepped(0x09c7623fu32) == 0xb66fea5fu32,
        stepped(0xe2f0d93cu32) == 0x2f8d8c5eu32,
        stepped(0x0d32b202u32) == 0xee03539eu32,
        stepped(0xefeea97bu32) == 0xc738461du32,
        stepped(0x002cc245u32) == 0x06b699ddu32,
        stepped(0xeb1b7946u32) == 0x9f54ffdcu32,
        stepped(0x04d91278u32) == 0x5eda201cu32,
        stepped(0xf5d249f5u32) == 0xcd22d4dau32,
        stepped(0x1a1022cbu32) == 0x0cac0b1au32,
        stepped(0xf12799c8u32) == 0x954e6d1bu32,
        stepped(0x1ee5f2f6u32) == 0x54c0b2dbu32,
        stepped(0xfc39e98fu32) == 0x7dfba758u32,
        stepped(0x13fb82b1u32) == 0xbc757898u32,
        stepped(0xf8cc39b2u32) == 0x25971e99u32,
        stepped(0x170e528cu32) == 0xe419c159u32,
        stepped(0xc1ab88e9u32) == 0xd917f154u32,
        stepped(0x2e69e3d7u32) == 0x18992e94u32,
        stepped(0xc55e58d4u32) == 0x817b4895u32,
        stepped(0x2a9c33eau32) == 0x40f59755u32,
        stepped(0xc8402893u32) == 0x69ce82d6u32,
        stepped(0x278243adu32) == 0xa8405d16u32,
        stepped(0xccb5f8aeu32) == 0x31a23b17u32,
        stepped(0x23779390u32) == 0xf02ce4d7u32,
        stepped(0xd27cc81du32) == 0x63d41011u32,
        stepped(0x3dbea323u32) == 0xa25acfd1u32,
        stepped(0xd6891820u32) == 0x3bb8a9d0u32,
        stepped(0x394b731eu32) == 0xfa367610u32,
        stepped(0xdb976867u32) == 0xd30d6393u32,
        stepped(0x34550359u32) == 0x1283bc53u32,
        stepped(0xdf62b85au32) == 0x8b61da52u32,
        stepped(0x30a0d364u32) == 0x4aef0592u32,
        stepped(0xa9580ad1u32) == 0xf17dba48u32,
        stepped(0x469a61efu32) == 0x30f36588u32,
        stepped(0xadaddaecu32) == 0xa9110389u32,
        stepped(0x426fb1d2u32) == 0x689fdc49u32,
        stepped(0xa0b3aaabu32) == 0x41a4c9cau32,
        stepped(0x4f71c195u32) == 0x802a160au32,
        stepped(0xa4467a96u32) == 0x19c8700bu32,
        stepped(0x4b8411a8u32) == 0xd846afcbu32,
        stepped(0xba8f4a25u32) == 0x4bbe5b0du32,
        stepped(0x554d211bu32) == 0x8a3084cdu32,
        stepped(0xbe7a9a18u32) == 0x13d2e2ccu32,
        stepped(0x51b8f126u32) == 0xd25c3d0cu32,
        stepped(0xb364ea5fu32) == 0xfb67288fu32,
        stepped(0x5ca68161u32) == 0x3ae9f74fu32,
        stepped(0xb7913a62u32) == 0xa30b914eu32,
        stepped(0x5853515cu32) == 0x62854e8eu32,
        stepped(0x8ef68b39u32) == 0x5f8b7e83u32,
        stepped(0x6134e007u32) == 0x9e05a143u32,
        stepped(0x8a035b04u32) == 0x07e7c742u32,
        stepped(0x65c1303au32) == 0xc6691882u32,
        stepped(0x871d2b43u32) == 0xef520d01u32,
        stepped(0x68df407du32) == 0x2edcd2c1u32,
        stepped(0x83e8fb7eu32) == 0xb73eb4c0u32,
        stepped(0x6c2a9040u32) == 0x76b06b00u32,
        stepped(0x9d21cbcdu32) == 0xe5489fc6u32,
        stepped(0x72e3a0f3u32) == 0x24c64006u32,
        stepped(0x99d41bf0u32) == 0xbd242607u32,
        stepped(0x761670ceu32) == 0x7caaf9c7u32,
        stepped(0x94ca6bb7u32) == 0x5591ec44u32,
        stepped(0x7b080089u32) == 0x941f3384u32,
        stepped(0x903fbb8au32) == 0x0dfd5585u32,
        stepped(0x7ffdd0b4u32) == 0xcc738a45u32,
        stepped(0x78bf0ea1u32) == 0xa1a92c70u32,
        stepped(0x977d659fu32) == 0x6027f3b0u32,
        stepped(0x7c4ade9cu32) == 0xf9c595b1u32,
        stepped(0x9388b5a2u32) == 0x384b4a71u32,
        stepped(0x7154aedbu32) == 0x11705ff2u32,
        stepped(0x9e96c5e5u32) == 0xd0fe8032u32,
        stepped(0x75a17ee6u32) == 0x491ce633u32,
        stepped(0x9a6315d8u32) == 0x889239f3u32,
        stepped(0x6b684e55u32) == 0x1b6acd35u32,
        stepped(0x84aa256bu32) == 0xdae412f5u32,
        stepped(0x6f9d9e68u32) == 0x430674f4u32,
        stepped(0x805ff556u32) == 0x8288ab34u32,
        stepped(0x6283ee2fu32) == 0xabb3beb7u32,
        stepped(0x8d418511u32) == 0x6a3d6177u32,
        stepped(0x66763e12u32) == 0xf3df0776u32,
        stepped(0x89b4552cu32) == 0x3251d8b6u32,
        stepped(0x5f118f49u32) == 0x0f5fe8bbu32,
        stepped(0xb0d3e477u32) == 0xced1377bu32,
        stepped(0x5be45f74u32) == 0x5733517au32,
        stepped(0xb426344au32) == 0x96bd8ebau32,
        stepped(0x56fa2f33u32) == 0xbf869b39u32,
        stepped(0xb938440du32) == 0x7e0844f9u32,
        stepped(0x520fff0eu32) == 0xe7ea22f8u32,
        stepped(0xbdcd9430u32) == 0x2664fd38u32,
        stepped(0x4cc6cfbdu32) == 0xb59c09feu32,
        stepped(0xa304a483u32) == 0x7412d63eu32,
        stepped(0x48331f80u32) == 0xedf0b03fu32,
        stepped(0xa7f174beu32) == 0x2c7e6fffu32,
        stepped(0x452d6fc7u32) == 0x05457a7cu32,
        stepped(0xaaef04f9u32) == 0xc4cba5bcu32,
        stepped(0x41d8bffau32) == 0x5d29c3bdu32,
        stepped(0xae1ad4c4u32) == 0x9ca71c7du32,
        stepped(0x37e20d71u32) == 0x2735a3a7u32,
        stepped(0xd820664fu32) == 0xe6bb7c67u32,
        stepped(0x3317dd4cu32) == 0x7f591a66u32,
        stepped(0xdcd5b672u32) == 0xbed7c5a6u32,
        stepped(0x3e09ad0bu32) == 0x97ecd025u32,
        stepped(0xd1cbc635u32) == 0x56620fe5u32,
        stepped(0x3afc7d36u32) == 0xcf8069e4u32,
        stepped(0xd53e1608u32) == 0x0e0eb624u32,
        stepped(0x24354d85u32) == 0x9df642e2u32,
        stepped(0xcbf726bbu32) == 0x5c789d22u32,
        stepped(0x20c09db8u32) == 0xc59afb23u32,
        stepped(0xcf02f686u32) == 0x041424e3u32,
        stepped(0x2ddeedffu32) == 0x2d2f3160u32,
        stepped(0xc21c86c1u32) == 0xeca1eea0u32,
        stepped(0x292b3dc2u32) == 0x754388a1u32,
        stepped(0xc6e956fcu32) == 0xb4cd5761u32,
        stepped(0x104c8c99u32) == 0x89c3676cu32,
        stepped(0xff8ee7a7u32) == 0x484db8acu32,
        stepped(0x14b95ca4u32) == 0xd1afdeadu32,
        stepped(0xfb7b379au32) == 0x1021016du32,
        stepped(0x19a72ce3u32) == 0x391a14eeu32,
        stepped(0xf66547ddu32) == 0xf894cb2eu32,
        stepped(0x1d52fcdeu32) == 0x6176ad2fu32,
        stepped(0xf29097e0u32) == 0xa0f872efu32,
        stepped(0x039bcc6du32) == 0x33008629u32,
        stepped(0xec59a753u32) == 0xf28e59e9u32,
        stepped(0x076e1c50u32) == 0x6b6c3fe8u32,
        stepped(0xe8ac776eu32) == 0xaae2e028u32,
        stepped(0x0a706c17u32) == 0x83d9f5abu32,
        stepped(0xe5b20729u32) == 0x42572a6bu32,
        stepped(0x0e85bc2au32) == 0xdbb54c6au32,
        stepped(0xe147d714u32) == 0x1a3b93aau32,
{
}

proof fn lemma_row_11(i: int)
    requires
        0 <= i < 256,
    ensures
        CRC32_TABLE[11][i] == shift_byte(CRC32_TABLE[10][i]),
{
    assert(CRC32_TABLE[11][i] == stepped(CRC32_TABLE[10][i])) by {
        lemma_byte_cases(i);
        lemma_steps_11();
    }
    reveal(stepped);
}

/// What each entry of table 10 becomes over a zero byte.
proof fn lemma_steps_11()
    by (bit_vector)
    ensures
        stepped(0x00000000u32) == 0x00000000u32,
        stepped(0xc18edfc0u32) == 0x9ba54c6fu32,
        stepped(0x586cb9c1u32) == 0xec3b9e9fu32,
        stepped(0x99e26601u32) == 0x779ed2f0u32,
        stepped(0xb0d97382u32) == 0x03063b7fu32,
        stepped(0x7157ac42u32) == 0x98a37710u32,
        stepped(0xe8b5ca43u32) == 0xef3da5e0u32,
        stepped(0x293b1583u32) == 0x7498e98fu32,
        stepped(0xbac3e145u32) == 0x060c76feu32,
        stepped(0x7b4d3e85u32) == 0x9da93a91u32,
        stepped(0xe2af5884u32) == 0xea37e861u32,
        stepped(0x23218744u32) == 0x7192a40eu32,
        stepped(0x0a1a92c7u32) == 0x050a4d81u32,
        stepped(0xcb944d07u32) == 0x9eaf01eeu32,
        stepped(0x52762b06u32) == 0xe931d31eu32,
        stepped(0x93f8f4c6u32) == 0x72949f71u32,
        stepped(0xaef6c4cbu32) == 0x0c18edfcu32,
        stepped(0x6f781b0bu32) == 0x97bda193u32,
        stepped(0xf69a7d0au32) == 0xe0237363u32,
        stepped(0x3714a2cau32) == 0x7b863f0cu32,
        stepped(0x1e2fb749u32) == 0x0f1ed683u32,
        stepped(0xdfa16889u32) == 0x94bb9aecu32,
        stepped(0x46430e88u32) == 0xe325481cu32,
        stepped(0x87cdd148u32) == 0x78800473u32,
        stepped(0x1435258eu32) == 0x0a149b02u32,
        stepped(0xd5bbfa4eu32) == 0x91b1d76du32,
        stepped(0x4c599c4fu32) == 0xe62f059du32,
        stepped(0x8dd7438fu32) == 0x7d8a49f2u32,
        stepped(0xa4ec560cu32) == 0x0912a07du32,
        stepped(0x656289ccu32) == 0x92b7ec12u32,
        stepped(0xfc80efcdu32) == 0xe5293ee2u32,
        stepped(0x3d0e300du32) == 0x7e8c728du32,
        stepped(0x869c8fd7u32) == 0x1831dbf8u32,
        stepped(0x47125017u32) == 0x83949797u32,
        stepped(0xdef03616u32) == 0xf40a4567u32,
        stepped(0x1f7ee9d6u32) == 0x6faf0908u32,
        stepped(0x3645fc55u32) == 0x1b37e087u32,
        stepped(0xf7cb2395u32) == 0x8092ace8u32,
        stepped(0x6e294594u32) == 0xf70c7e18u32,
        stepped(0xafa79a54u32) == 0x6ca93277u32,
        stepped(0x3c5f6e92u32) == 0x1e3dad06u32,
        stepped(0xfdd1b152u32) == 0x8598e169u32,
        stepped(0x6433d753u32) == 0xf2063399u32,
        stepped(0xa5bd0893u32) == 0x69a37ff6u32,
        stepped(0x8c861d10u32) == 0x1d3b9679u32,
        stepped(0x4d08c2d0u32) == 0x869eda16u32,
        stepped(0xd4eaa4d1u32) == 0xf10008e6u32,
        stepped(0x15647b11u32) == 0x6aa54489u32,
        stepped(0x286a4b1cu32) == 0x14293604u32,
        stepped(0xe9e494dcu32) == 0x8f8c7a6bu32,
        stepped(0x7006f2ddu32) == 0xf812a89bu32,
        stepped(0xb1882d1du32) == 0x63b7e4f4u32,
        stepped(0x98b3389eu32) == 0x172f0d7bu32,
        stepped(0x593de75eu32) == 0x8c8a4114u32,
        stepped(0xc0df815fu32) == 0xfb1493e4u32,
        stepped(0x01515e9fu32) == 0x60b1df8bu32,
        stepped(0x92a9aa59u32) == 0x122540fau32,
        stepped(0x53277599u32) == 0x89800c95u32,
        stepped(0xcac51398u32) == 0xfe1ede65u32,
        stepped(0x0b4bcc58u32) == 0x65bb920au32,
        stepped(0x2270d9dbu32) == 0x11237b85u32,
        stepped(0xe3fe061bu32) == 0x8a8637eau32,
        stepped(0x7a1c601au32) == 0xfd18e51au32,
        stepped(0xbb92bfdau32) == 0x66bda975u32,
        stepped(0xd64819efu32) == 0x3063b7f0u32,
        stepped(0x17c6c62fu32) == 0xabc6fb9fu32,
        stepped(0x8e24a02eu32) == 0xdc58296fu32,
        stepped(0x4faa7feeu32) == 0x47fd6500u32,
        stepped(0x66916a6du32) == 0x33658c8fu32,
        stepped(0xa71fb5adu32) == 0xa8c0c0e0u32,
        stepped(0x3efdd3acu32) == 0xdf5e1210u32,
        stepped(0xff730c6cu32) == 0x44fb5e7fu32,
        stepped(0x6c8bf8aau32) == 0x366fc10eu32,
        stepped(0xad05276au32) == 0xadca8d61u32,
        stepped(0x34e7416bu32) == 0xda545f91u32,
        stepped(0xf5699eabu32) == 0x41f113feu32,
        stepped(0xdc528b28u32) == 0x3569fa71u32,
        stepped(0x1ddc54e8u32) == 0xaeccb61eu32,
        stepped(0x843e32e9u32) == 0xd95264eeu32,
        stepped(0x45b0ed29u32) == 0x42f72881u32,
        stepped(0x78bedd24u32) == 0x3c7b5a0cu32,
        stepped(0xb93002e4u32) == 0xa7de1663u32,
        stepped(0x20d264e5u32) == 0xd040c493u32,
        stepped(0xe15cbb25u32) == 0x4be588fcu32,
        stepped(0xc867aea6u32) == 0x3f7d6173u32,
        stepped(0x09e97166u32) == 0xa4d82d1cu32,
        stepped(0x900b1767u32) == 0xd346ffecu32,
        stepped(0x5185c8a7u32) == 0x48e3b383u32,
        stepped(0xc27d3c61u32) == 0x3a772cf2u32,
        stepped(0x03f3e3a1u32) == 0xa1d2609du32,
        stepped(0x9a1185a0u32) == 0xd64cb26du32,
        stepped(0x5b9f5a60u32) == 0x4de9fe02u32,
        stepped(0x72a44fe3u32) == 0x3971178du32,
        stepped(0xb32a9023u32) == 0xa2d45be2u32,
        stepped(0x2ac8f622u32) == 0xd54a8912u32,
        stepped(0xeb4629e2u32) == 0x4eefc57du32,
        stepped(0x50d49638u32) == 0x28526c08u32,
        stepped(0x915a49f8u32) == 0xb3f72067u32,
        stepped(0x08b82ff9u32) == 0xc469f297u32,
        stepped(0xc936f039u32) == 0x5fccbef8u32,
        stepped(0xe00de5bau32) == 0x2b545777u32,
        stepped(0x21833a7au32) == 0xb0f11b18u32,
        stepped(0xb8615c7bu32) == 0xc76fc9e8u32,
        stepped(0x79ef83bbu32) == 0x5cca8587u32,
        stepped(0xea17777du32) == 0x2e5e1af6u32,
        stepped(0x2b99a8bdu32) == 0xb5fb5699u32,
        stepped(0xb27bcebcu32) == 0xc2658469u32,
        stepped(0x73f5117cu32) == 0x59c0c806u32,
        stepped(0x5ace04ffu32) == 0x2d582189u32,
        stepped(0x9b40db3fu32) == 0xb6fd6de6u32,
        stepped(0x02a2bd3eu32) == 0xc163bf16u32,
        stepped(0xc32c62feu32) == 0x5ac6f379u32,
        stepped(0xfe2252f3u32) == 0x244a81f4u32,
        stepped(0x3fac8d33u32) == 0xbfefcd9bu32,
        stepped(0xa64eeb32u32) == 0xc8711f6bu32,
        stepped(0x67c034f2u32) == 0x53d45304u32,
        stepped(0x4efb2171u32) == 0x274cba8bu32,
        stepped(0x8f75feb1u32) == 0xbce9f6e4u32,
        stepped(0x169798b0u32) == 0xcb772414u32,
        stepped(0xd7194770u32) == 0x50d2687bu32,
        stepped(0x44e1b3b6u32) == 0x2246f70au32,
        stepped(0x856f6c76u32) == 0xb9e3bb65u32,
        stepped(0x1c8d0a77u32) == 0xce7d6995u32,
        stepped(0xdd03d5b7u32) == 0x55d825fau32,
        stepped(0xf438c034u32) == 0x2140cc75u32,
        stepped(0x35b61ff4u32) == 0xbae5801au32,
        stepped(0xac5479f5u32) == 0xcd7b52eau32,
        stepped(0x6ddaa635u32) == 0x56de1e85u32,
        stepped(0x77e1359fu32) == 0x60c76fe0u32,
        stepped(0xb66fea5fu32) == 0xfb62238fu32,
        stepped(0x2f8d8c5eu32) == 0x8cfcf17fu32,
        stepped(0xee03539eu32) == 0x1759bd10u32,
        stepped(0xc738461du32) == 0x63c1549fu32,
        stepped(0x06b699ddu32) == 0xf86418f0u32,
        stepped(0x9f54ffdcu32) == 0x8ffaca00u32,
        stepped(0x5eda201cu32) == 0x145f866fu32,
        stepped(0xcd22d4dau32) == 0x66cb191eu32,
        stepped(0x0cac0b1au32) == 0xfd6e5571u32,
        stepped(0x954e6d1bu32) == 0x8af08781u32,
        stepped(0x54c0b2dbu32) == 0x1155cbeeu32,
        stepped(0x7dfba758u32) == 0x65cd2261u32,
        stepped(0xbc757898u32) == 0xfe686e0eu32,
        stepped(0x25971e99u32) == 0x89f6bcfeu32,
        stepped(0xe419c159u32) == 0x1253f091u32,
        stepped(0xd917f154u32) == 0x6cdf821cu32,
        stepped(0x18992e94u32) == 0xf77ace73u32,
        stepped(0x817b4895u32) == 0x80e41c83u32,
        stepped(0x40f59755u32) == 0x1b4150ecu32,
        stepped(0x69ce82d6u32) == 0x6fd9b963u32,
        stepped(0xa8405d16u32) == 0xf47cf50cu32,
        stepped(0x31a23b17u32) == 0x83e227fcu32,
        stepped(0xf02ce4d7u32) == 0x18476b93u32,
        stepped(0x63d41011u32) == 0x6ad3f4e2u32,
        stepped(0xa25acfd1u32) == 0xf176b88du32,
        stepped(0x3bb8a9d0u32) == 0x86e86a7du32,
        stepped(0xfa367610u32) == 0x1d4d2612u32,
        stepped(0xd30d6393u32) == 0x69d5cf9du32,
        stepped(0x1283bc53u32) == 0xf27083f2u32,
        stepped(0x8b61da52u32) == 0x85ee5102u32,
        stepped(0x4aef0592u32) == 0x1e4b1d6du32,
        stepped(0xf17dba48u32) == 0x78f6b418u32,
        stepped(0x30f36588u32) == 0xe353f877u32,
        stepped(0xa9110389u32) == 0x94cd2a87u32,
        stepped(0x689fdc49u32) == 0x0f6866e8u32,
        stepped(0x41a4c9cau32) == 0x7bf08f67u32,
        stepped(0x802a160au32) == 0xe055c308u32,
        stepped(0x19c8700bu32) == 0x97cb11f8u32,
        stepped(0xd846afcbu32) == 0x0c6e5d97u32,
        stepped(0x4bbe5b0du32) == 0x7efac2e6u32,
        stepped(0x8a3084cdu32) == 0xe55f8e89u32,
        stepped(0x13d2e2ccu32) == 0x92c15c79u32,
        stepped(0xd25c3d0cu32) == 0x09641016u32,
        stepped(0xfb67288fu32) == 0x7dfcf999u32,
        stepped(0x3ae9f74fu32) == 0xe659b5f6u32,
        stepped(0xa30b914eu32) == 0x91c76706u32,
        stepped(0x62854e8eu32) == 0x0a622b69u32,
        stepped(0x5f8b7e83u32) == 0x74ee59e4u32,
        stepped(0x9e05a143u32) == 0xef4b158bu32,
        stepped(0x07e7c742u32) == 0x98d5c77bu32,
        stepped(0xc6691882u32) == 0x03708b14u32,
        stepped(0xef520d01u32) == 0x77e8629bu32,
        stepped(0x2edcd2c1u32) == 0xec4d2ef4u32,
        stepped(0xb73eb4c0u32) == 0x9bd3fc04u32,
        stepped(0x76b06b00u32) == 0x0076b06bu32,
        stepped(0xe5489fc6u32) == 0x72e22f1au32,
        stepped(0x24c64006u32) == 0xe9476375u32,
        stepped(0xbd242607u32) == 0x9ed9b185u32,
        stepped(0x7caaf9c7u32) == 0x057cfdeau32,
        stepped(0x5591ec44u32) == 0x71e41465u32,
        stepped(0x941f3384u32) == 0xea41580au32,
        stepped(0x0dfd5585u32) == 0x9ddf8afau32,
        stepped(0xcc738a45u32) == 0x067ac695u32,
        stepped(0xa1a92c70u32) == 0x50a4d810u32,
        stepped(0x6027f3b0u32) == 0xcb01947fu32,
        stepped(0xf9c595b1u32) == 0xbc9f468fu32,
        stepped(0x384b4a71u32) == 0x273a0ae0u32,
        stepped(0x11705ff2u32) == 0x53a2e36fu32,
        stepped(0xd0fe8032u32) == 0xc807af00u32,
        stepped(0x491ce633u32) == 0xbf997df0u32,
        stepped(0x889239f3u32) == 0x243c319fu32,
        stepped(0x1b6acd35u32) == 0x56a8aeeeu32,
        stepped(0xdae412f5u32) == 0xcd0de281u32,
        stepped(0x430674f4u32) == 0xba933071u32,
        stepped(0x8288ab34u32) == 0x21367c1eu32,
        stepped(0xabb3beb7u32) == 0x55ae9591u32,
        stepped(0x6a3d6177u32) == 0xce0bd9feu32,
        stepped(0xf3df0776u32) == 0xb9950b0eu32,
        stepped(0x3251d8b6u32) == 0x22304761u32,
        stepped(0x0f5fe8bbu32) == 0x5cbc35ecu32,
        stepped(0xced1377bu32) == 0xc7197983u32,
        stepped(0x5733517au32) == 0xb087ab73u32,
        stepped(0x96bd8ebau32) == 0x2b22e71cu32,
        stepped(0xbf869b39u32) == 0x5fba0e93u32,
        stepped(0x7e0844f9u32) == 0xc41f42fcu32,
        stepped(0xe7ea22f8u32) == 0xb381900cu32,
        stepped(0x2664fd38u32) == 0x2824dc63u32,
        stepped(0xb59c09feu32) == 0x5ab04312u32,
        stepped(0x7412d63eu32) == 0xc1150f7du32,
        stepped(0xedf0b03fu32) == 0xb68bdd8du32,
        stepped(0x2c7e6fffu32) == 0x2d2e91e2u32,
        stepped(0x05457a7cu32) == 0x59b6786du32,
        stepped(0xc4cba5bcu32) == 0xc2133402u32,
        stepped(0x5d29c3bdu32) == 0xb58de6f2u32,
        stepped(0x9ca71c7du32) == 0x2e28aa9du32,
        stepped(0x2735a3a7u32) == 0x489503e8u32,
        stepped(0xe6bb7c67u32) == 0xd3304f87u32,
        stepped(0x7f591a66u32) == 0xa4ae9d77u32,
        stepped(0xbed7c5a6u32) == 0x3f0bd118u32,
        stepped(0x97ecd025u32) == 0x4b933897u32,
        stepped(0x56620fe5u32) == 0xd03674f8u32,
        stepped(0xcf8069e4u32) == 0xa7a8a608u32,
        stepped(0x0e0eb624u32) == 0x3c0dea67u32,
        stepped(0x9df642e2u32) == 0x4e997516u32,
        stepped(0x5c789d22u32) == 0xd53c3979u32,
        stepped(0xc59afb23u32) == 0xa2a2eb89u32,
        stepped(0x041424e3u32) == 0x3907a7e6u32,
        stepped(0x2d2f3160u32) == 0x4d9f4e69u32,
        stepped(0xeca1eea0u32) == 0xd63a0206u32,
        stepped(0x754388a1u32) == 0xa1a4d0f6u32,
        stepped(0xb4cd5761u32) == 0x3a019c99u32,
        stepped(0x89c3676cu32) == 0x448dee14u32,
        stepped(0x484db8acu32) == 0xdf28a27bu32,
        stepped(0xd1afdeadu32) == 0xa8b6708bu32,
        stepped(0x1021016du32) == 0x33133ce4u32,
        stepped(0x391a14eeu32) == 0x478bd56bu32,
        stepped(0xf894cb2eu32) == 0xdc2e9904u32,
        stepped(0x6176ad2fu32) == 0xabb04bf4u32,
        stepped(0xa0f872efu32) == 0x3015079bu32,
        stepped(0x33008629u32) == 0x428198eau32,
        stepped(0xf28e59e9u32) == 0xd924d485u32,
        stepped(0x6b6c3fe8u32) == 0xaeba0675u32,
        stepped(0xaae2e028u32) == 0x351f4a1au32,
        stepped(0x83d9f5abu32) == 0x4187a395u32,
        stepped(0x42572a6bu32) == 0xda22effau32,
        stepped(0xdbb54c6au32) == 0xadbc3d0au32,
        stepped(0x1a3b93aau32) == 0x36197165u32,
{
}

proof fn lemma_row_12(i: int)
    requires
        0 <= i < 256,
    ensures
        CRC32_TABLE[12][i] == shift_byte(CRC32_TABLE[11][i]),
{
    assert(CRC32_TABLE[12][i] == stepped(CRC32_TABLE[11][i])) by {
        lemma_byte_cases(i);
        lemma_steps_12();
    }
    reveal(stepped);
}

/// What each entry of table 11 becomes over a zero byte.
proof fn lemma_steps_12()
    by (bit_vector)
    ensures
        stepped(0x00000000u32) == 0x00000000u32,
        stepped(0x9ba54c6fu32) == 0xdd96d985u32,
        stepped(0xec3b9e9fu32) == 0x605cb54bu32,
        stepped(0x779ed2f0u32) == 0xbdca6cceu32,
        stepped(0x03063b7fu32) == 0xc0b96a96u32,
        stepped(0x98a37710u32) == 0x1d2fb313u32,
        stepped(0xef3da5e0u32) == 0xa0e5dfddu32,
        stepped(0x7498e98fu32) == 0x7d730658u32,
        stepped(0x060c76feu32) == 0x5a03d36du32,
        stepped(0x9da93a91u32) == 0x87950ae8u32,
        stepped(0xea37e861u32) == 0x3a5f6626u32,
        stepped(0x7192a40eu32) == 0xe7c9bfa3u32,
        stepped(0x050a4d81u32) == 0x9abab9fbu32,
        stepped(0x9eaf01eeu32) == 0x472c607eu32,
        stepped(0xe931d31eu32) == 0xfae60cb0u32,
        stepped(0x72949f71u32) == 0x2770d535u32,
        stepped(0x0c18edfcu32) == 0xb407a6dau32,
        stepped(0x97bda193u32) == 0x69917f5fu32,
        stepped(0xe0237363u32) == 0xd45b1391u32,
        stepped(0x7b863f0cu32) == 0x09cdca14u32,
        stepped(0x0f1ed683u32) == 0x74becc4cu32,
        stepped(0x94bb9aecu32) == 0xa92815c9u32,
        stepped(0xe325481cu32) == 0x14e27907u32,
        stepped(0x78800473u32) == 0xc974a082u32,
        stepped(0x0a149b02u32) == 0xee0475b7u32,
        stepped(0x91b1d76du32) == 0x3392ac32u32,
        stepped(0xe62f059du32) == 0x8e58c0fcu32,
        stepped(0x7d8a49f2u32) == 0x53ce1979u32,
        stepped(0x0912a07du32) == 0x2ebd1f21u32,
        stepped(0x92b7ec12u32) == 0xf32bc6a4u32,
        stepped(0xe5293ee2u32) == 0x4ee1aa6au32,
        stepped(0x7e8c728du32) == 0x937773efu32,
        stepped(0x1831dbf8u32) == 0xb37e4bf5u32,
        stepped(0x83949797u32) == 0x6ee89270u32,
        stepped(0xf40a4567u32) == 0xd322febeu32,
        stepped(0x6faf0908u32) == 0x0eb4273bu32,
        stepped(0x1b37e087u32) == 0x73c72163u32,
        stepped(0x8092ace8u32) == 0xae51f8e6u32,
        stepped(0xf70c7e18u32) == 0x139b9428u32,
        stepped(0x6ca93277u32) == 0xce0d4dadu32,
        stepped(0x1e3dad06u32) == 0xe97d9898u32,
        stepped(0x8598e169u32) == 0x34eb411du32,
        stepped(0xf2063399u32) == 0x89212dd3u32,
        stepped(0x69a37ff6u32) == 0x54b7f456u32,
        stepped(0x1d3b9679u32) == 0x29c4f20eu32,
        stepped(0x869eda16u32) == 0xf4522b8bu32,
        stepped(0xf10008e6u32) == 0x49984745u32,
        stepped(0x6aa54489u32) == 0x940e9ec0u32,
        stepped(0x14293604u32) == 0x0779ed2fu32,
        stepped(0x8f8c7a6bu32) == 0xdaef34aau32,
        stepped(0xf812a89bu32) == 0x67255864u32,
        stepped(0x63b7e4f4u32) == 0xbab381e1u32,
        stepped(0x172f0d7bu32) == 0xc7c087b9u32,
        stepped(0x8c8a4114u32) == 0x1a565e3cu32,
        stepped(0xfb1493e4u32) == 0xa79c32f2u32,
        stepped(0x60b1df8bu32) == 0x7a0aeb77u32,
        stepped(0x122540fau32) == 0x5d7a3e42u32,
        stepped(0x89800c95u32) == 0x80ece7c7u32,
        stepped(0xfe1ede65u32) == 0x3d268b09u32,
        stepped(0x65bb920au32) == 0xe0b0528cu32,
        stepped(0x11237b85u32) == 0x9dc354d4u32,
        stepped(0x8a8637eau32) == 0x40558d51u32,
        stepped(0xfd18e51au32) == 0xfd9fe19fu32,
        stepped(0x66bda975u32) == 0x2009381au32,
        stepped(0x3063b7f0u32) == 0xbd8d91abu32,
        stepped(0xabc6fb9fu32) == 0x601b482eu32,
        stepped(0xdc58296fu32) == 0xddd124e0u32,
        stepped(0x47fd6500u32) == 0x0047fd65u32,
        stepped(0x33658c8fu32) == 0x7d34fb3du32,
        stepped(0xa8c0c0e0u32) == 0xa0a222b8u32,
        stepped(0xdf5e1210u32) == 0x1d684e76u32,
        stepped(0x44fb5e7fu32) == 0xc0fe97f3u32,
        stepped(0x366fc10eu32) == 0xe78e42c6u32,
        stepped(0xadca8d61u32) == 0x3a189b43u32,
        stepped(0xda545f91u32) == 0x87d2f78du32,
        stepped(0x41f113feu32) == 0x5a442e08u32,
        stepped(0x3569fa71u32) == 0x27372850u32,
        stepped(0xaeccb61eu32) == 0xfaa1f1d5u32,
        stepped(0xd95264eeu32) == 0x476b9d1bu32,
        stepped(0x42f72881u32) == 0x9afd449eu32,
        stepped(0x3c7b5a0cu32) == 0x098a3771u32,
        stepped(0xa7de1663u32) == 0xd41ceef4u32,
        stepped(0xd040c493u32) == 0x69d6823au32,
        stepped(0x4be588fcu32) == 0xb4405bbfu32,
        stepped(0x3f7d6173u32) == 0xc9335de7u32,
        stepped(0xa4d82d1cu32) == 0x14a58462u32,
        stepped(0xd346ffecu32) == 0xa96fe8acu32,
        stepped(0x48e3b383u32) == 0x74f93129u32,
        stepped(0x3a772cf2u32) == 0x5389e41cu32,
        stepped(0xa1d2609du32) == 0x8e1f3d99u32,
        stepped(0xd64cb26du32) == 0x33d55157u32,
        stepped(0x4de9fe02u32) == 0xee4388d2u32,
        stepped(0x3971178du32) == 0x93308e8au32,
        stepped(0xa2d45be2u32) == 0x4ea6570fu32,
        stepped(0xd54a8912u32) == 0xf36c3bc1u32,
        stepped(0x4eefc57du32) == 0x2efae244u32,
        stepped(0x28526c08u32) == 0x0ef3da5eu32,
        stepped(0xb3f72067u32) == 0xd36503dbu32,
        stepped(0xc469f297u32) == 0x6eaf6f15u32,
        stepped(0x5fccbef8u32) == 0xb339b690u32,
        stepped(0x2b545777u32) == 0xce4ab0c8u32,
        stepped(0xb0f11b18u32) == 0x13dc694du32,
        stepped(0xc76fc9e8u32) == 0xae160583u32,
        stepped(0x5cca8587u32) == 0x7380dc06u32,
        stepped(0x2e5e1af6u32) == 0x54f00933u32,
        stepped(0xb5fb5699u32) == 0x8966d0b6u32,
        stepped(0xc2658469u32) == 0x34acbc78u32,
        stepped(0x59c0c806u32) == 0xe93a65fdu32,
        stepped(0x2d582189u32) == 0x944963a5u32,
        stepped(0xb6fd6de6u32) == 0x49dfba20u32,
        stepped(0xc163bf16u32) == 0xf415d6eeu32,
        stepped(0x5ac6f379u32) == 0x29830f6bu32,
        stepped(0x244a81f4u32) == 0xbaf47c84u32,
        stepped(0xbfefcd9bu32) == 0x6762a501u32,
        stepped(0xc8711f6bu32) == 0xdaa8c9cfu32,
        stepped(0x53d45304u32) == 0x073e104au32,
        stepped(0x274cba8bu32) == 0x7a4d1612u32,
        stepped(0xbce9f6e4u32) == 0xa7dbcf97u32,
        stepped(0xcb772414u32) == 0x1a11a359u32,
        stepped(0x50d2687bu32) == 0xc7877adcu32,
        stepped(0x2246f70au32) == 0xe0f7afe9u32,
        stepped(0xb9e3bb65u32) == 0x3d61766cu32,
        stepped(0xce7d6995u32) == 0x80ab1aa2u32,
        stepped(0x55d825fau32) == 0x5d3dc327u32,
        stepped(0x2140cc75u32) == 0x204ec57fu32,
        stepped(0xbae5801au32) == 0xfdd81cfau32,
        stepped(0xcd7b52eau32) == 0x40127034u32,
        stepped(0x56de1e85u32) == 0x9d84a9b1u32,
        stepped(0x60c76fe0u32) == 0xa06a2517u32,
        stepped(0xfb62238fu32) == 0x7dfcfc92u32,
        stepped(0x8cfcf17fu32) == 0xc036905cu32,
        stepped(0x1759bd10u32) == 0x1da049d9u32,
        stepped(0x63c1549fu32) == 0x60d34f81u32,
        stepped(0xf86418f0u32) == 0xbd459604u32,
        stepped(0x8ffaca00u32) == 0x008ffacau32,
        stepped(0x145f866fu32) == 0xdd19234fu32,
        stepped(0x66cb191eu32) == 0xfa69f67au32,
        stepped(0xfd6e5571u32) == 0x27ff2fffu32,
        stepped(0x8af08781u32) == 0x9a354331u32,
        stepped(0x1155cbeeu32) == 0x47a39ab4u32,
        stepped(0x65cd2261u32) == 0x3ad09cecu32,
        stepped(0xfe686e0eu32) == 0xe7464569u32,
        stepped(0x89f6bcfeu32) == 0x5a8c29a7u32,
        stepped(0x1253f091u32) == 0x871af022u32,
        stepped(0x6cdf821cu32) == 0x146d83cdu32,
        stepped(0xf77ace73u32) == 0xc9fb5a48u32,
        stepped(0x80e41c83u32) == 0x74313686u32,
        stepped(0x1b4150ecu32) == 0xa9a7ef03u32,
        stepped(0x6fd9b963u32) == 0xd4d4e95bu32,
        stepped(0xf47cf50cu32) == 0x094230deu32,
        stepped(0x83e227fcu32) == 0xb4885c10u32,
        stepped(0x18476b93u32) == 0x691e8595u32,
        stepped(0x6ad3f4e2u32) == 0x4e6e50a0u32,
        stepped(0xf176b88du32) == 0x93f88925u32,
        stepped(0x86e86a7du32) == 0x2e32e5ebu32,
        stepped(0x1d4d2612u32) == 0xf3a43c6eu32,
        stepped(0x69d5cf9du32) == 0x8ed73a36u32,
        stepped(0xf27083f2u32) == 0x5341e3b3u32,
        stepped(0x85ee5102u32) == 0xee8b8f7du32,
        stepped(0x1e4b1d6du32) == 0x331d56f8u32,
        stepped(0x78f6b418u32) == 0x13146ee2u32,
        stepped(0xe353f877u32) == 0xce82b767u32,
        stepped(0x94cd2a87u32) == 0x7348dba9u32,
        stepped(0x0f6866e8u32) == 0xaede022cu32,
        stepped(0x7bf08f67u32) == 0xd3ad0474u32,
        stepped(0xe055c308u32) == 0x0e3bddf1u32,
        stepped(0x97cb11f8u32) == 0xb3f1b13fu32,
        stepped(0x0c6e5d97u32) == 0x6e6768bau32,
        stepped(0x7efac2e6u32) == 0x4917bd8fu32,
        stepped(0xe55f8e89u32) == 0x9481640au32,
        stepped(0x92c15c79u32) == 0x294b08c4u32,
        stepped(0x09641016u32) == 0xf4ddd141u32,
        stepped(0x7dfcf999u32) == 0x89aed719u32,
        stepped(0xe659b5f6u32) == 0x54380e9cu32,
        stepped(0x91c76706u32) == 0xe9f26252u32,
        stepped(0x0a622b69u32) == 0x3464bbd7u32,
        stepped(0x74ee59e4u32) == 0xa713c838u32,
        stepped(0xef4b158bu32) == 0x7a8511bdu32,
        stepped(0x98d5c77bu32) == 0xc74f7d73u32,
        stepped(0x03708b14u32) == 0x1ad9a4f6u32,
        stepped(0x77e8629bu32) == 0x67aaa2aeu32,
        stepped(0xec4d2ef4u32) == 0xba3c7b2bu32,
        stepped(0x9bd3fc04u32) == 0x07f617e5u32,
        stepped(0x0076b06bu32) == 0xda60ce60u32,
        stepped(0x72e22f1au32) == 0xfd101b55u32,
        stepped(0xe9476375u32) == 0x2086c2d0u32,
        stepped(0x9ed9b185u32) == 0x9d4cae1eu32,
        stepped(0x057cfdeau32) == 0x40da779bu32,
        stepped(0x71e41465u32) == 0x3da971c3u32,
        stepped(0xea41580au32) == 0xe03fa846u32,
        stepped(0x9ddf8afau32) == 0x5df5c488u32,
        stepped(0x067ac695u32) == 0x80631d0du32,
        stepped(0x50a4d810u32) == 0x1de7b4bcu32,
        stepped(0xcb01947fu32) == 0xc0716d39u32,
        stepped(0xbc9f468fu32) == 0x7dbb01f7u32,
        stepped(0x273a0ae0u32) == 0xa02dd872u32,
        stepped(0x53a2e36fu32) == 0xdd5ede2au32,
        stepped(0xc807af00u32) == 0x00c807afu32,
        stepped(0xbf997df0u32) == 0xbd026b61u32,
        stepped(0x243c319fu32) == 0x6094b2e4u32,
        stepped(0x56a8aeeeu32) == 0x47e467d1u32,
        stepped(0xcd0de281u32) == 0x9a72be54u32,
        stepped(0xba933071u32) == 0x27b8d29au32,
        stepped(0x21367c1eu32) == 0xfa2e0b1fu32,
        stepped(0x55ae9591u32) == 0x875d0d47u32,
        stepped(0xce0bd9feu32) == 0x5acbd4c2u32,
        stepped(0xb9950b0eu32) == 0xe701b80cu32,
        stepped(0x22304761u32) == 0x3a976189u32,
        stepped(0x5cbc35ecu32) == 0xa9e01266u32,
        stepped(0xc7197983u32) == 0x7476cbe3u32,
        stepped(0xb087ab73u32) == 0xc9bca72du32,
        stepped(0x2b22e71cu32) == 0x142a7ea8u32,
        stepped(0x5fba0e93u32) == 0x695978f0u32,
        stepped(0xc41f42fcu32) == 0xb4cfa175u32,
        stepped(0xb381900cu32) == 0x0905cdbbu32,
        stepped(0x2824dc63u32) == 0xd493143eu32,
        stepped(0x5ab04312u32) == 0xf3e3c10bu32,
        stepped(0xc1150f7du32) == 0x2e75188eu32,
        stepped(0xb68bdd8du32) == 0x93bf7440u32,
        stepped(0x2d2e91e2u32) == 0x4e29adc5u32,
        stepped(0x59b6786du32) == 0x335aab9du32,
        stepped(0xc2133402u32) == 0xeecc7218u32,
        stepped(0xb58de6f2u32) == 0x53061ed6u32,
        stepped(0x2e28aa9du32) == 0x8e90c753u32,
        stepped(0x489503e8u32) == 0xae99ff49u32,
        stepped(0xd3304f87u32) == 0x730f26ccu32,
        stepped(0xa4ae9d77u32) == 0xcec54a02u32,
        stepped(0x3f0bd118u32) == 0x13539387u32,
        stepped(0x4b933897u32) == 0x6e2095dfu32,
        stepped(0xd03674f8u32) == 0xb3b64c5au32,
        stepped(0xa7a8a608u32) == 0x0e7c2094u32,
        stepped(0x3c0dea67u32) == 0xd3eaf911u32,
        stepped(0x4e997516u32) == 0xf49a2c24u32,
        stepped(0xd53c3979u32) == 0x290cf5a1u32,
        stepped(0xa2a2eb89u32) == 0x94c6996fu32,
        stepped(0x3907a7e6u32) == 0x495040eau32,
        stepped(0x4d9f4e69u32) == 0x342346b2u32,
        stepped(0xd63a0206u32) == 0xe9b59f37u32,
        stepped(0xa1a4d0f6u32) == 0x547ff3f9u32,
        stepped(0x3a019c99u32) == 0x89e92a7cu32,
        stepped(0x448dee14u32) == 0x1a9e5993u32,
        stepped(0xdf28a27bu32) == 0xc7088016u32,
        stepped(0xa8b6708bu32) == 0x7ac2ecd8u32,
        stepped(0x33133ce4u32) == 0xa754355du32,
        stepped(0x478bd56bu32) == 0xda273305u32,
        stepped(0xdc2e9904u32) == 0x07b1ea80u32,
        stepped(0xabb04bf4u32) == 0xba7b864eu32,
        stepped(0x3015079bu32) == 0x67ed5fcbu32,
        stepped(0x428198eau32) == 0x409d8afeu32,
        stepped(0xd924d485u32) == 0x9d0b537bu32,
        stepped(0xaeba0675u32) == 0x20c13fb5u32,
        stepped(0x351f4a1au32) == 0xfd57e630u32,
        stepped(0x4187a395u32) == 0x8024e068u32,
        stepped(0xda22effau32) == 0x5db239edu32,
        stepped(0xadbc3d0au32) == 0xe0785523u32,
        stepped(0x36197165u32) == 0x3dee8ca6u32,
{
}

proof fn lemma_row_13(i: int)
    requires
        0 <= i < 256,
    ensures
        CRC32_TABLE[13][i] == shift_byte(CRC32_TABLE[12][i]),
{
    assert(CRC32_TABLE[13][i] == stepped(CRC32_TABLE[12][i])) by {
        lemma_byte_cases(i);
        lemma_steps_13();
    }
    reveal(stepped);
}

/// What each entry of table 12 becomes over a zero byte.
proof fn lemma_steps_13()
    by (bit_vector)
    ensures
        stepped(0x00000000u32) == 0x00000000u32,
        stepped(0xdd96d985u32) == 0x9d0fe176u32,
        stepped(0x605cb54bu32) == 0xe16ec4adu32,
        stepped(0xbdca6cceu32) == 0x7c6125dbu32,
        stepped(0xc0b96a96u32) == 0x19ac8f1bu32,
        stepped(0x1d2fb313u32) == 0x84a36e6du32,
        stepped(0xa0e5dfddu32) == 0xf8c24bb6u32,
        stepped(0x7d730658u32) == 0x65cdaac0u32,
        stepped(0x5a03d36du32) == 0x33591e36u32,
        stepped(0x87950ae8u32) == 0xae56ff40u32,
        stepped(0x3a5f6626u32) == 0xd237da9bu32,
        stepped(0xe7c9bfa3u32) == 0x4f383bedu32,
        stepped(0x9abab9fbu32) == 0x2af5912du32,
        stepped(0x472c607eu32) == 0xb7fa705bu32,
        stepped(0xfae60cb0u32) == 0xcb9b5580u32,
        stepped(0x2770d535u32) == 0x5694b4f6u32,
        stepped(0xb407a6dau32) == 0x66b23c6cu32,
        stepped(0x69917f5fu32) == 0xfbbddd1au32,
        stepped(0xd45b1391u32) == 0x87dcf8c1u32,
        stepped(0x09cdca14u32) == 0x1ad319b7u32,
        stepped(0x74becc4cu32) == 0x7f1eb377u32,
        stepped(0xa92815c9u32) == 0xe2115201u32,
        stepped(0x14e27907u32) == 0x9e7077dau32,
        stepped(0xc974a082u32) == 0x037f96acu32,
        stepped(0xee0475b7u32) == 0x55eb225au32,
        stepped(0x3392ac32u32) == 0xc8e4c32cu32,
        stepped(0x8e58c0fcu32) == 0xb485e6f7u32,
        stepped(0x53ce1979u32) == 0x298a0781u32,
        stepped(0x2ebd1f21u32) == 0x4c47ad41u32,
        stepped(0xf32bc6a4u32) == 0xd1484c37u32,
        stepped(0x4ee1aa6au32) == 0xad2969ecu32,
        stepped(0x937773efu32) == 0x3026889au32,
        stepped(0xb37e4bf5u32) == 0xcd6478d8u32,
        stepped(0x6ee89270u32) == 0x506b99aeu32,
        stepped(0xd322febeu32) == 0x2c0abc75u32,
        stepped(0x0eb4273bu32) == 0xb1055d03u32,
        stepped(0x73c72163u32) == 0xd4c8f7c3u32,
        stepped(0xae51f8e6u32) == 0x49c716b5u32,
        stepped(0x139b9428u32) == 0x35a6336eu32,
        stepped(0xce0d4dadu32) == 0xa8a9d218u32,
        stepped(0xe97d9898u32) == 0xfe3d66eeu32,
        stepped(0x34eb411du32) == 0x63328798u32,
        stepped(0x89212dd3u32) == 0x1f53a243u32,
        stepped(0x54b7f456u32) == 0x825c4335u32,
        stepped(0x29c4f20eu32) == 0xe791e9f5u32,
        stepped(0xf4522b8bu32) == 0x7a9e0883u32,
        stepped(0x49984745u32) == 0x06ff2d58u32,
        stepped(0x940e9ec0u32) == 0x9bf0cc2eu32,
        stepped(0x0779ed2fu32) == 0xabd644b4u32,
        stepped(0xdaef34aau32) == 0x36d9a5c2u32,
        stepped(0x67255864u32) == 0x4ab88019u32,
        stepped(0xbab381e1u32) == 0xd7b7616fu32,
        stepped(0xc7c087b9u32) == 0xb27acbafu32,
        stepped(0x1a565e3cu32) == 0x2f752ad9u32,
        stepped(0xa79c32f2u32) == 0x53140f02u32,
        stepped(0x7a0aeb77u32) == 0xce1bee74u32,
        stepped(0x5d7a3e42u32) == 0x988f5a82u32,
        stepped(0x80ece7c7u32) == 0x0580bbf4u32,
        stepped(0x3d268b09u32) == 0x79e19e2fu32,
        stepped(0xe0b0528cu32) == 0xe4ee7f59u32,
        stepped(0x9dc354d4u32) == 0x8123d599u32,
        stepped(0x40558d51u32) == 0x1c2c34efu32,
        stepped(0xfd9fe19fu32) == 0x604d1134u32,
        stepped(0x2009381au32) == 0xfd42f042u32,
        stepped(0xbd8d91abu32) == 0x41b9f7f1u32,
        stepped(0x601b482eu32) == 0xdcb61687u32,
        stepped(0xddd124e0u32) == 0xa0d7335cu32,
        stepped(0x0047fd65u32) == 0x3dd8d22au32,
        stepped(0x7d34fb3du32) == 0x581578eau32,
        stepped(0xa0a222b8u32) == 0xc51a999cu32,
        stepped(0x1d684e76u32) == 0xb97bbc47u32,
        stepped(0xc0fe97f3u32) == 0x24745d31u32,
        stepped(0xe78e42c6u32) == 0x72e0e9c7u32,
        stepped(0x3a189b43u32) == 0xefef08b1u32,
        stepped(0x87d2f78du32) == 0x938e2d6au32,
        stepped(0x5a442e08u32) == 0x0e81cc1cu32,
        stepped(0x27372850u32) == 0x6b4c66dcu32,
        stepped(0xfaa1f1d5u32) == 0xf64387aau32,
        stepped(0x476b9d1bu32) == 0x8a22a271u32,
        stepped(0x9afd449eu32) == 0x172d4307u32,
        stepped(0x098a3771u32) == 0x270bcb9du32,
        stepped(0xd41ceef4u32) == 0xba042aebu32,
        stepped(0x69d6823au32) == 0xc6650f30u32,
        stepped(0xb4405bbfu32) == 0x5b6aee46u32,
        stepped(0xc9335de7u32) == 0x3ea74486u32,
        stepped(0x14a58462u32) == 0xa3a8a5f0u32,
        stepped(0xa96fe8acu32) == 0xdfc9802bu32,
        stepped(0x74f93129u32) == 0x42c6615du32,
        stepped(0x5389e41cu32) == 0x1452d5abu32,
        stepped(0x8e1f3d99u32) == 0x895d34ddu32,
        stepped(0x33d55157u32) == 0xf53c1106u32,
        stepped(0xee4388d2u32) == 0x6833f070u32,
        stepped(0x93308e8au32) == 0x0dfe5ab0u32,
        stepped(0x4ea6570fu32) == 0x90f1bbc6u32,
        stepped(0xf36c3bc1u32) == 0xec909e1du32,
        stepped(0x2efae244u32) == 0x719f7f6bu32,
        stepped(0x0ef3da5eu32) == 0x8cdd8f29u32,
        stepped(0xd36503dbu32) == 0x11d26e5fu32,
        stepped(0x6eaf6f15u32) == 0x6db34b84u32,
        stepped(0xb339b690u32) == 0xf0bcaaf2u32,
        stepped(0xce4ab0c8u32) == 0x95710032u32,
        stepped(0x13dc694du32) == 0x087ee144u32,
        stepped(0xae160583u32) == 0x741fc49fu32,
        stepped(0x7380dc06u32) == 0xe91025e9u32,
        stepped(0x54f00933u32) == 0xbf84911fu32,
        stepped(0x8966d0b6u32) == 0x228b7069u32,
        stepped(0x34acbc78u32) == 0x5eea55b2u32,
        stepped(0xe93a65fdu32) == 0xc3e5b4c4u32,
        stepped(0x944963a5u32) == 0xa6281e04u32,
        stepped(0x49dfba20u32) == 0x3b27ff72u32,
        stepped(0xf415d6eeu32) == 0x4746daa9u32,
        stepped(0x29830f6bu32) == 0xda493bdfu32,
        stepped(0xbaf47c84u32) == 0xea6fb345u32,
        stepped(0x6762a501u32) == 0x77605233u32,
        stepped(0xdaa8c9cfu32) == 0x0b0177e8u32,
        stepped(0x073e104au32) == 0x960e969eu32,
        stepped(0x7a4d1612u32) == 0xf3c33c5eu32,
        stepped(0xa7dbcf97u32) == 0x6eccdd28u32,
        stepped(0x1a11a359u32) == 0x12adf8f3u32,
        stepped(0xc7877adcu32) == 0x8fa21985u32,
        stepped(0xe0f7afe9u32) == 0xd936ad73u32,
        stepped(0x3d61766cu32) == 0x44394c05u32,
        stepped(0x80ab1aa2u32) == 0x385869deu32,
        stepped(0x5d3dc327u32) == 0xa55788a8u32,
        stepped(0x204ec57fu32) == 0xc09a2268u32,
        stepped(0xfdd81cfau32) == 0x5d95c31eu32,
        stepped(0x40127034u32) == 0x21f4e6c5u32,
        stepped(0x9d84a9b1u32) == 0xbcfb07b3u32,
        stepped(0xa06a2517u32) == 0x8373efe2u32,
        stepped(0x7dfcfc92u32) == 0x1e7c0e94u32,
        stepped(0xc036905cu32) == 0x621d2b4fu32,
        stepped(0x1da049d9u32) == 0xff12ca39u32,
        stepped(0x60d34f81u32) == 0x9adf60f9u32,
        stepped(0xbd459604u32) == 0x07d0818fu32,
        stepped(0x008ffacau32) == 0x7bb1a454u32,
        stepped(0xdd19234fu32) == 0xe6be4522u32,
        stepped(0xfa69f67au32) == 0xb02af1d4u32,
        stepped(0x27ff2fffu32) == 0x2d2510a2u32,
        stepped(0x9a354331u32) == 0x51443579u32,
        stepped(0x47a39ab4u32) == 0xcc4bd40fu32,
        stepped(0x3ad09cecu32) == 0xa9867ecfu32,
        stepped(0xe7464569u32) == 0x34899fb9u32,
        stepped(0x5a8c29a7u32) == 0x48e8ba62u32,
        stepped(0x871af022u32) == 0xd5e75b14u32,
        stepped(0x146d83cdu32) == 0xe5c1d38eu32,
        stepped(0xc9fb5a48u32) == 0x78ce32f8u32,
        stepped(0x74313686u32) == 0x04af1723u32,
        stepped(0xa9a7ef03u32) == 0x99a0f655u32,
        stepped(0xd4d4e95bu32) == 0xfc6d5c95u32,
        stepped(0x094230deu32) == 0x6162bde3u32,
        stepped(0xb4885c10u32) == 0x1d039838u32,
        stepped(0x691e8595u32) == 0x800c794eu32,
        stepped(0x4e6e50a0u32) == 0xd698cdb8u32,
        stepped(0x93f88925u32) == 0x4b972cceu32,
        stepped(0x2e32e5ebu32) == 0x37f60915u32,
        stepped(0xf3a43c6eu32) == 0xaaf9e863u32,
        stepped(0x8ed73a36u32) == 0xcf3442a3u32,
        stepped(0x5341e3b3u32) == 0x523ba3d5u32,
        stepped(0xee8b8f7du32) == 0x2e5a860eu32,
        stepped(0x331d56f8u32) == 0xb3556778u32,
        stepped(0x13146ee2u32) == 0x4e17973au32,
        stepped(0xce82b767u32) == 0xd318764cu32,
        stepped(0x7348dba9u32) == 0xaf795397u32,
        stepped(0xaede022cu32) == 0x3276b2e1u32,
        stepped(0xd3ad0474u32) == 0x57bb1821u32,
        stepped(0x0e3bddf1u32) == 0xcab4f957u32,
        stepped(0xb3f1b13fu32) == 0xb6d5dc8cu32,
        stepped(0x6e6768bau32) == 0x2bda3dfau32,
        stepped(0x4917bd8fu32) == 0x7d4e890cu32,
        stepped(0x9481640au32) == 0xe041687au32,
        stepped(0x294b08c4u32) == 0x9c204da1u32,
        stepped(0xf4ddd141u32) == 0x012facd7u32,
        stepped(0x89aed719u32) == 0x64e20617u32,
        stepped(0x54380e9cu32) == 0xf9ede761u32,
        stepped(0xe9f26252u32) == 0x858cc2bau32,
        stepped(0x3464bbd7u32) == 0x188323ccu32,
        stepped(0xa713c838u32) == 0x28a5ab56u32,
        stepped(0x7a8511bdu32) == 0xb5aa4a20u32,
        stepped(0xc74f7d73u32) == 0xc9cb6ffbu32,
        stepped(0x1ad9a4f6u32) == 0x54c48e8du32,
        stepped(0x67aaa2aeu32) == 0x3109244du32,
        stepped(0xba3c7b2bu32) == 0xac06c53bu32,
        stepped(0x07f617e5u32) == 0xd067e0e0u32,
        stepped(0xda60ce60u32) == 0x4d680196u32,
        stepped(0xfd101b55u32) == 0x1bfcb560u32,
        stepped(0x2086c2d0u32) == 0x86f35416u32,
        stepped(0x9d4cae1eu32) == 0xfa9271cdu32,
        stepped(0x40da779bu32) == 0x679d90bbu32,
        stepped(0x3da971c3u32) == 0x02503a7bu32,
        stepped(0xe03fa846u32) == 0x9f5fdb0du32,
        stepped(0x5df5c488u32) == 0xe33efed6u32,
        stepped(0x80631d0du32) == 0x7e311fa0u32,
        stepped(0x1de7b4bcu32) == 0xc2ca1813u32,
        stepped(0xc0716d39u32) == 0x5fc5f965u32,
        stepped(0x7dbb01f7u32) == 0x23a4dcbeu32,
        stepped(0xa02dd872u32) == 0xbeab3dc8u32,
        stepped(0xdd5ede2au32) == 0xdb669708u32,
        stepped(0x00c807afu32) == 0x4669767eu32,
        stepped(0xbd026b61u32) == 0x3a0853a5u32,
        stepped(0x6094b2e4u32) == 0xa707b2d3u32,
        stepped(0x47e467d1u32) == 0xf1930625u32,
        stepped(0x9a72be54u32) == 0x6c9ce753u32,
        stepped(0x27b8d29au32) == 0x10fdc288u32,
        stepped(0xfa2e0b1fu32) == 0x8df223feu32,
        stepped(0x875d0d47u32) == 0xe83f893eu32,
        stepped(0x5acbd4c2u32) == 0x75306848u32,
        stepped(0xe701b80cu32) == 0x09514d93u32,
        stepped(0x3a976189u32) == 0x945eace5u32,
        stepped(0xa9e01266u32) == 0xa478247fu32,
        stepped(0x7476cbe3u32) == 0x3977c509u32,
        stepped(0xc9bca72du32) == 0x4516e0d2u32,
        stepped(0x142a7ea8u32) == 0xd81901a4u32,
        stepped(0x695978f0u32) == 0xbdd4ab64u32,
        stepped(0xb4cfa175u32) == 0x20db4a12u32,
        stepped(0x0905cdbbu32) == 0x5cba6fc9u32,
        stepped(0xd493143eu32) == 0xc1b58ebfu32,
        stepped(0xf3e3c10bu32) == 0x97213a49u32,
        stepped(0x2e75188eu32) == 0x0a2edb3fu32,
        stepped(0x93bf7440u32) == 0x764ffee4u32,
        stepped(0x4e29adc5u32) == 0xeb401f92u32,
        stepped(0x335aab9du32) == 0x8e8db552u32,
        stepped(0xeecc7218u32) == 0x13825424u32,
        stepped(0x53061ed6u32) == 0x6fe371ffu32,
        stepped(0x8e90c753u32) == 0xf2ec9089u32,
        stepped(0xae99ff49u32) == 0x0fae60cbu32,
        stepped(0x730f26ccu32) == 0x92a181bdu32,
        stepped(0xcec54a02u32) == 0xeec0a466u32,
        stepped(0x13539387u32) == 0x73cf4510u32,
        stepped(0x6e2095dfu32) == 0x1602efd0u32,
        stepped(0xb3b64c5au32) == 0x8b0d0ea6u32,
        stepped(0x0e7c2094u32) == 0xf76c2b7du32,
        stepped(0xd3eaf911u32) == 0x6a63ca0bu32,
        stepped(0xf49a2c24u32) == 0x3cf77efdu32,
        stepped(0x290cf5a1u32) == 0xa1f89f8bu32,
        stepped(0x94c6996fu32) == 0xdd99ba50u32,
        stepped(0x495040eau32) == 0x40965b26u32,
        stepped(0x342346b2u32) == 0x255bf1e6u32,
        stepped(0xe9b59f37u32) == 0xb8541090u32,
        stepped(0x547ff3f9u32) == 0xc435354bu32,
        stepped(0x89e92a7cu32) == 0x593ad43du32,
        stepped(0x1a9e5993u32) == 0x691c5ca7u32,
        stepped(0xc7088016u32) == 0xf413bdd1u32,
        stepped(0x7ac2ecd8u32) == 0x8872980au32,
        stepped(0xa754355du32) == 0x157d797cu32,
        stepped(0xda273305u32) == 0x70b0d3bcu32,
        stepped(0x07b1ea80u32) == 0xedbf32cau32,
        stepped(0xba7b864eu32) == 0x91de1711u32,
        stepped(0x67ed5fcbu32) == 0x0cd1f667u32,
        stepped(0x409d8afeu32) == 0x5a454291u32,
        stepped(0x9d0b537bu32) == 0xc74aa3e7u32,
        stepped(0x20c13fb5u32) == 0xbb2b863cu32,
        stepped(0xfd57e630u32) == 0x2624674au32,
        stepped(0x8024e068u32) == 0x43e9cd8au32,
        stepped(0x5db239edu32) == 0xdee62cfcu32,
        stepped(0xe0785523u32) == 0xa2870927u32,
        stepped(0x3dee8ca6u32) == 0x3f88e851u32,
{
}

proof fn lemma_row_14(i: int)
    requires
        0 <= i < 256,
    ensures
        CRC32_TABLE[14][i] == shift_byte(CRC32_TABLE[13][i]),
{
    assert(CRC32_TABLE[14][i] == stepped(CRC32_TABLE[13][i])) by {
        lemma_byte_cases(i);
        lemma_steps_14();
    }
    reveal(stepped);
}

/// What each entry of table 13 becomes over a zero byte.
proof fn lemma_steps_14()
    by (bit_vector)
    ensures
        stepped(0x00000000u32) == 0x00000000u32,
        stepped(0x9d0fe176u32) == 0xb9fbdbe8u32,
        stepped(0xe16ec4adu32) == 0xa886b191u32,
        stepped(0x7c6125dbu32) == 0x117d6a79u32,
        stepped(0x19ac8f1bu32) == 0x8a7c6563u32,
        stepped(0x84a36e6du32) == 0x3387be8bu32,
        stepped(0xf8c24bb6u32) == 0x22fad4f2u32,
        stepped(0x65cdaac0u32) == 0x9b010f1au32,
        stepped(0x33591e36u32) == 0xcf89cc87u32,
        stepped(0xae56ff40u32) == 0x7672176fu32,
        stepped(0xd237da9bu32) == 0x670f7d16u32,
        stepped(0x4f383bedu32) == 0xdef4a6feu32,
        stepped(0x2af5912du32) == 0x45f5a9e4u32,
        stepped(0xb7fa705bu32) == 0xfc0e720cu32,
        stepped(0xcb9b5580u32) == 0xed731875u32,
        stepped(0x5694b4f6u32) == 0x5488c39du32,
        stepped(0x66b23c6cu32) == 0x44629f4fu32,
        stepped(0xfbbddd1au32) == 0xfd9944a7u32,
        stepped(0x87dcf8c1u32) == 0xece42edeu32,
        stepped(0x1ad319b7u32) == 0x551ff536u32,
        stepped(0x7f1eb377u32) == 0xce1efa2cu32,
        stepped(0xe2115201u32) == 0x77e521c4u32,
        stepped(0x9e7077dau32) == 0x66984bbdu32,
        stepped(0x037f96acu32) == 0xdf639055u32,
        stepped(0x55eb225au32) == 0x8beb53c8u32,
        stepped(0xc8e4c32cu32) == 0x32108820u32,
        stepped(0xb485e6f7u32) == 0x236de259u32,
        stepped(0x298a0781u32) == 0x9a9639b1u32,
        stepped(0x4c47ad41u32) == 0x019736abu32,
        stepped(0xd1484c37u32) == 0xb86ced43u32,
        stepped(0xad2969ecu32) == 0xa911873au32,
        stepped(0x3026889au32) == 0x10ea5cd2u32,
        stepped(0xcd6478d8u32) == 0x88c53e9eu32,
        stepped(0x506b99aeu32) == 0x313ee576u32,
        stepped(0x2c0abc75u32) == 0x20438f0fu32,
        stepped(0xb1055d03u32) == 0x99b854e7u32,
        stepped(0xd4c8f7c3u32) == 0x02b95bfdu32,
        stepped(0x49c716b5u32) == 0xbb428015u32,
        stepped(0x35a6336eu32) == 0xaa3fea6cu32,
        stepped(0xa8a9d218u32) == 0x13c43184u32,
        stepped(0xfe3d66eeu32) == 0x474cf219u32,
        stepped(0x63328798u32) == 0xfeb729f1u32,
        stepped(0x1f53a243u32) == 0xefca4388u32,
        stepped(0x825c4335u32) == 0x56319860u32,
        stepped(0xe791e9f5u32) == 0xcd30977au32,
        stepped(0x7a9e0883u32) == 0x74cb4c92u32,
        stepped(0x06ff2d58u32) == 0x65b626ebu32,
        stepped(0x9bf0cc2eu32) == 0xdc4dfd03u32,
        stepped(0xabd644b4u32) == 0xcca7a1d1u32,
        stepped(0x36d9a5c2u32) == 0x755c7a39u32,
        stepped(0x4ab88019u32) == 0x64211040u32,
        stepped(0xd7b7616fu32) == 0xdddacba8u32,
        stepped(0xb27acbafu32) == 0x46dbc4b2u32,
        stepped(0x2f752ad9u32) == 0xff201f5au32,
        stepped(0x53140f02u32) == 0xee5d7523u32,
        stepped(0xce1bee74u32) == 0x57a6aecbu32,
        stepped(0x988f5a82u32) == 0x032e6d56u32,
        stepped(0x0580bbf4u32) == 0xbad5b6beu32,
        stepped(0x79e19e2fu32) == 0xaba8dcc7u32,
        stepped(0xe4ee7f59u32) == 0x1253072fu32,
        stepped(0x8123d599u32) == 0x89520835u32,
        stepped(0x1c2c34efu32) == 0x30a9d3ddu32,
        stepped(0x604d1134u32) == 0x21d4b9a4u32,
        stepped(0xfd42f042u32) == 0x982f624cu32,
        stepped(0x41b9f7f1u32) == 0xcafb7b7du32,
        stepped(0xdcb61687u32) == 0x7300a095u32,
        stepped(0xa0d7335cu32) == 0x627dcaecu32,
        stepped(0x3dd8d22au32) == 0xdb861104u32,
        stepped(0x581578eau32) == 0x40871e1eu32,
        stepped(0xc51a999cu32) == 0xf97cc5f6u32,
        stepped(0xb97bbc47u32) == 0xe801af8fu32,
        stepped(0x24745d31u32) == 0x51fa7467u32,
        stepped(0x72e0e9c7u32) == 0x0572b7fau32,
        stepped(0xefef08b1u32) == 0xbc896c12u32,
        stepped(0x938e2d6au32) == 0xadf4066bu32,
        stepped(0x0e81cc1cu32) == 0x140fdd83u32,
        stepped(0x6b4c66dcu32) == 0x8f0ed299u32,
        stepped(0xf64387aau32) == 0x36f50971u32,
        stepped(0x8a22a271u32) == 0x27886308u32,
        stepped(0x172d4307u32) == 0x9e73b8e0u32,
        stepped(0x270bcb9du32) == 0x8e99e432u32,
        stepped(0xba042aebu32) == 0x37623fdau32,
        stepped(0xc6650f30u32) == 0x261f55a3u32,
        stepped(0x5b6aee46u32) == 0x9fe48e4bu32,
        stepped(0x3ea74486u32) == 0x04e58151u32,
        stepped(0xa3a8a5f0u32) == 0xbd1e5ab9u32,
        stepped(0xdfc9802bu32) == 0xac6330c0u32,
        stepped(0x42c6615du32) == 0x1598eb28u32,
        stepped(0x1452d5abu32) == 0x411028b5u32,
        stepped(0x895d34ddu32) == 0xf8ebf35du32,
        stepped(0xf53c1106u32) == 0xe9969924u32,
        stepped(0x6833f070u32) == 0x506d42ccu32,
        stepped(0x0dfe5ab0u32) == 0xcb6c4dd6u32,
        stepped(0x90f1bbc6u32) == 0x7297963eu32,
        stepped(0xec909e1du32) == 0x63eafc47u32,
        stepped(0x719f7f6bu32) == 0xda1127afu32,
        stepped(0x8cdd8f29u32) == 0x423e45e3u32,
        stepped(0x11d26e5fu32) == 0xfbc59e0bu32,
        stepped(0x6db34b84u32) == 0xeab8f472u32,
        stepped(0xf0bcaaf2u32) == 0x53432f9au32,
        stepped(0x95710032u32) == 0xc8422080u32,
        stepped(0x087ee144u32) == 0x71b9fb68u32,
        stepped(0x741fc49fu32) == 0x60c49111u32,
        stepped(0xe91025e9u32) == 0xd93f4af9u32,
        stepped(0xbf84911fu32) == 0x8db78964u32,
        stepped(0x228b7069u32) == 0x344c528cu32,
        stepped(0x5eea55b2u32) == 0x253138f5u32,
        stepped(0xc3e5b4c4u32) == 0x9ccae31du32,
        stepped(0xa6281e04u32) == 0x07cbec07u32,
        stepped(0x3b27ff72u32) == 0xbe3037efu32,
        stepped(0x4746daa9u32) == 0xaf4d5d96u32,
        stepped(0xda493bdfu32) == 0x16b6867eu32,
        stepped(0xea6fb345u32) == 0x065cdaacu32,
        stepped(0x77605233u32) == 0xbfa70144u32,
        stepped(0x0b0177e8u32) == 0xaeda6b3du32,
        stepped(0x960e969eu32) == 0x1721b0d5u32,
        stepped(0xf3c33c5eu32) == 0x8c20bfcfu32,
        stepped(0x6eccdd28u32) == 0x35db6427u32,
        stepped(0x12adf8f3u32) == 0x24a60e5eu32,
        stepped(0x8fa21985u32) == 0x9d5dd5b6u32,
        stepped(0xd936ad73u32) == 0xc9d5162bu32,
        stepped(0x44394c05u32) == 0x702ecdc3u32,
        stepped(0x385869deu32) == 0x6153a7bau32,
        stepped(0xa55788a8u32) == 0xd8a87c52u32,
        stepped(0xc09a2268u32) == 0x43a97348u32,
        stepped(0x5d95c31eu32) == 0xfa52a8a0u32,
        stepped(0x21f4e6c5u32) == 0xeb2fc2d9u32,
        stepped(0xbcfb07b3u32) == 0x52d41931u32,
        stepped(0x8373efe2u32) == 0x4e87f0bbu32,
        stepped(0x1e7c0e94u32) == 0xf77c2b53u32,
        stepped(0x621d2b4fu32) == 0xe601412au32,
        stepped(0xff12ca39u32) == 0x5ffa9ac2u32,
        stepped(0x9adf60f9u32) == 0xc4fb95d8u32,
        stepped(0x07d0818fu32) == 0x7d004e30u32,
        stepped(0x7bb1a454u32) == 0x6c7d2449u32,
        stepped(0xe6be4522u32) == 0xd586ffa1u32,
        stepped(0xb02af1d4u32) == 0x810e3c3cu32,
        stepped(0x2d2510a2u32) == 0x38f5e7d4u32,
        stepped(0x51443579u32) == 0x29888dadu32,
        stepped(0xcc4bd40fu32) == 0x90735645u32,
        stepped(0xa9867ecfu32) == 0x0b72595fu32,
        stepped(0x34899fb9u32) == 0xb28982b7u32,
        stepped(0x48e8ba62u32) == 0xa3f4e8ceu32,
        stepped(0xd5e75b14u32) == 0x1a0f3326u32,
        stepped(0xe5c1d38eu32) == 0x0ae56ff4u32,
        stepped(0x78ce32f8u32) == 0xb31eb41cu32,
        stepped(0x04af1723u32) == 0xa263de65u32,
        stepped(0x99a0f655u32) == 0x1b98058du32,
        stepped(0xfc6d5c95u32) == 0x80990a97u32,
        stepped(0x6162bde3u32) == 0x3962d17fu32,
        stepped(0x1d039838u32) == 0x281fbb06u32,
        stepped(0x800c794eu32) == 0x91e460eeu32,
        stepped(0xd698cdb8u32) == 0xc56ca373u32,
        stepped(0x4b972cceu32) == 0x7c97789bu32,
        stepped(0x37f60915u32) == 0x6dea12e2u32,
        stepped(0xaaf9e863u32) == 0xd411c90au32,
        stepped(0xcf3442a3u32) == 0x4f10c610u32,
        stepped(0x523ba3d5u32) == 0xf6eb1df8u32,
        stepped(0x2e5a860eu32) == 0xe7967781u32,
        stepped(0xb3556778u32) == 0x5e6dac69u32,
        stepped(0x4e17973au32) == 0xc642ce25u32,
        stepped(0xd318764cu32) == 0x7fb915cdu32,
        stepped(0xaf795397u32) == 0x6ec47fb4u32,
        stepped(0x3276b2e1u32) == 0xd73fa45cu32,
        stepped(0x57bb1821u32) == 0x4c3eab46u32,
        stepped(0xcab4f957u32) == 0xf5c570aeu32,
        stepped(0xb6d5dc8cu32) == 0xe4b81ad7u32,
        stepped(0x2bda3dfau32) == 0x5d43c13fu32,
        stepped(0x7d4e890cu32) == 0x09cb02a2u32,
        stepped(0xe041687au32) == 0xb030d94au32,
        stepped(0x9c204da1u32) == 0xa14db333u32,
        stepped(0x012facd7u32) == 0x18b668dbu32,
        stepped(0x64e20617u32) == 0x83b767c1u32,
        stepped(0xf9ede761u32) == 0x3a4cbc29u32,
        stepped(0x858cc2bau32) == 0x2b31d650u32,
        stepped(0x188323ccu32) == 0x92ca0db8u32,
        stepped(0x28a5ab56u32) == 0x8220516au32,
        stepped(0xb5aa4a20u32) == 0x3bdb8a82u32,
        stepped(0xc9cb6ffbu32) == 0x2aa6e0fbu32,
        stepped(0x54c48e8du32) == 0x935d3b13u32,
        stepped(0x3109244du32) == 0x085c3409u32,
        stepped(0xac06c53bu32) == 0xb1a7efe1u32,
        stepped(0xd067e0e0u32) == 0xa0da8598u32,
        stepped(0x4d680196u32) == 0x19215e70u32,
        stepped(0x1bfcb560u32) == 0x4da99dedu32,
        stepped(0x86f35416u32) == 0xf4524605u32,
        stepped(0xfa9271cdu32) == 0xe52f2c7cu32,
        stepped(0x679d90bbu32) == 0x5cd4f794u32,
        stepped(0x02503a7bu32) == 0xc7d5f88eu32,
        stepped(0x9f5fdb0du32) == 0x7e2e2366u32,
        stepped(0xe33efed6u32) == 0x6f53491fu32,
        stepped(0x7e311fa0u32) == 0xd6a892f7u32,
        stepped(0xc2ca1813u32) == 0x847c8bc6u32,
        stepped(0x5fc5f965u32) == 0x3d87502eu32,
        stepped(0x23a4dcbeu32) == 0x2cfa3a57u32,
        stepped(0xbeab3dc8u32) == 0x9501e1bfu32,
        stepped(0xdb669708u32) == 0x0e00eea5u32,
        stepped(0x4669767eu32) == 0xb7fb354du32,
        stepped(0x3a0853a5u32) == 0xa6865f34u32,
        stepped(0xa707b2d3u32) == 0x1f7d84dcu32,
        stepped(0xf1930625u32) == 0x4bf54741u32,
        stepped(0x6c9ce753u32) == 0xf20e9ca9u32,
        stepped(0x10fdc288u32) == 0xe373f6d0u32,
        stepped(0x8df223feu32) == 0x5a882d38u32,
        stepped(0xe83f893eu32) == 0xc1892222u32,
        stepped(0x75306848u32) == 0x7872f9cau32,
        stepped(0x09514d93u32) == 0x690f93b3u32,
        stepped(0x945eace5u32) == 0xd0f4485bu32,
        stepped(0xa478247fu32) == 0xc01e1489u32,
        stepped(0x3977c509u32) == 0x79e5cf61u32,
        stepped(0x4516e0d2u32) == 0x6898a518u32,
        stepped(0xd81901a4u32) == 0xd1637ef0u32,
        stepped(0xbdd4ab64u32) == 0x4a6271eau32,
        stepped(0x20db4a12u32) == 0xf399aa02u32,
        stepped(0x5cba6fc9u32) == 0xe2e4c07bu32,
        stepped(0xc1b58ebfu32) == 0x5b1f1b93u32,
        stepped(0x97213a49u32) == 0x0f97d80eu32,
        stepped(0x0a2edb3fu32) == 0xb66c03e6u32,
        stepped(0x764ffee4u32) == 0xa711699fu32,
        stepped(0xeb401f92u32) == 0x1eeab277u32,
        stepped(0x8e8db552u32) == 0x85ebbd6du32,
        stepped(0x13825424u32) == 0x3c106685u32,
        stepped(0x6fe371ffu32) == 0x2d6d0cfcu32,
        stepped(0xf2ec9089u32) == 0x9496d714u32,
        stepped(0x0fae60cbu32) == 0x0cb9b558u32,
        stepped(0x92a181bdu32) == 0xb5426eb0u32,
        stepped(0xeec0a466u32) == 0xa43f04c9u32,
        stepped(0x73cf4510u32) == 0x1dc4df21u32,
        stepped(0x1602efd0u32) == 0x86c5d03bu32,
        stepped(0x8b0d0ea6u32) == 0x3f3e0bd3u32,
        stepped(0xf76c2b7du32) == 0x2e4361aau32,
        stepped(0x6a63ca0bu32) == 0x97b8ba42u32,
        stepped(0x3cf77efdu32) == 0xc33079dfu32,
        stepped(0xa1f89f8bu32) == 0x7acba237u32,
        stepped(0xdd99ba50u32) == 0x6bb6c84eu32,
        stepped(0x40965b26u32) == 0xd24d13a6u32,
        stepped(0x255bf1e6u32) == 0x494c1cbcu32,
        stepped(0xb8541090u32) == 0xf0b7c754u32,
        stepped(0xc435354bu32) == 0xe1caad2du32,
        stepped(0x593ad43du32) == 0x583176c5u32,
        stepped(0x691c5ca7u32) == 0x48db2a17u32,
        stepped(0xf413bdd1u32) == 0xf120f1ffu32,
        stepped(0x8872980au32) == 0xe05d9b86u32,
        stepped(0x157d797cu32) == 0x59a6406eu32,
        stepped(0x70b0d3bcu32) == 0xc2a74f74u32,
        stepped(0xedbf32cau32) == 0x7b5c949cu32,
        stepped(0x91de1711u32) == 0x6a21fee5u32,
        stepped(0x0cd1f667u32) == 0xd3da250du32,
        stepped(0x5a454291u32) == 0x8752e690u32,
        stepped(0xc74aa3e7u32) == 0x3ea93d78u32,
        stepped(0xbb2b863cu32) == 0x2fd45701u32,
        stepped(0x2624674au32) == 0x962f8ce9u32,
        stepped(0x43e9cd8au32) == 0x0d2e83f3u32,
        stepped(0xdee62cfcu32) == 0xb4d5581bu32,
        stepped(0xa2870927u32) == 0xa5a83262u32,
        stepped(0x3f88e851u32) == 0x1c53e98au32,
{
}

proof fn lemma_row_15(i: int)
    requires
        0 <= i < 256,
    ensures
        CRC32_TABLE[15][i] == shift_byte(CRC32_TABLE[14][i]),
{
    assert(CRC32_TABLE[15][i] == stepped(CRC32_TABLE[14][i])) by {
        lemma_byte_cases(i);
        lemma_steps_15();
    }
    reveal(stepped);
}

/// What each entry of table 14 becomes over a zero byte.
proof fn lemma_steps_15()
    by (bit_vector)
    ensures
        stepped(0x00000000u32) == 0x00000000u32,
        stepped(0xb9fbdbe8u32) == 0xae689191u32,
        stepped(0xa886b191u32) == 0x87a02563u32,
        stepped(0x117d6a79u32) == 0x29c8b4f2u32,
        stepped(0x8a7c6563u32) == 0xd4314c87u32,
        stepped(0x3387be8bu32) == 0x7a59dd16u32,
        stepped(0x22fad4f2u32) == 0x539169e4u32,
        stepped(0x9b010f1au32) == 0xfdf9f875u32,
        stepped(0xcf89cc87u32) == 0x73139f4fu32,
        stepped(0x7672176fu32) == 0xdd7b0edeu32,
        stepped(0x670f7d16u32) == 0xf4b3ba2cu32,
        stepped(0xdef4a6feu32) == 0x5adb2bbdu32,
        stepped(0x45f5a9e4u32) == 0xa722d3c8u32,
        stepped(0xfc0e720cu32) == 0x094a4259u32,
        stepped(0xed731875u32) == 0x2082f6abu32,
        stepped(0x5488c39du32) == 0x8eea673au32,
        stepped(0x44629f4fu32) == 0xe6273e9eu32,
        stepped(0xfd9944a7u32) == 0x484faf0fu32,
        stepped(0xece42edeu32) == 0x61871bfdu32,
        stepped(0x551ff536u32) == 0xcfef8a6cu32,
        stepped(0xce1efa2cu32) == 0x32167219u32,
        stepped(0x77e521c4u32) == 0x9c7ee388u32,
        stepped(0x66984bbdu32) == 0xb5b6577au32,
        stepped(0xdf639055u32) == 0x1bdec6ebu32,
        stepped(0x8beb53c8u32) == 0x9534a1d1u32,
        stepped(0x32108820u32) == 0x3b5c3040u32,
        stepped(0x236de259u32) == 0x129484b2u32,
        stepped(0x9a9639b1u32) == 0xbcfc1523u32,
        stepped(0x019736abu32) == 0x4105ed56u32,
        stepped(0xb86ced43u32) == 0xef6d7cc7u32,
        stepped(0xa911873au32) == 0xc6a5c835u32,
        stepped(0x10ea5cd2u32) == 0x68cd59a4u32,
        stepped(0x88c53e9eu32) == 0x173f7b7du32,
        stepped(0x313ee576u32) == 0xb957eaecu32,
        stepped(0x20438f0fu32) == 0x909f5e1eu32,
        stepped(0x99b854e7u32) == 0x3ef7cf8fu32,
        stepped(0x02b95bfdu32) == 0xc30e37fau32,
        stepped(0xbb428015u32) == 0x6d66a66bu32,
        stepped(0xaa3fea6cu32) == 0x44ae1299u32,
        stepped(0x13c43184u32) == 0xeac68308u32,
        stepped(0x474cf219u32) == 0x642ce432u32,
        stepped(0xfeb729f1u32) == 0xca4475a3u32,
        stepped(0xefca4388u32) == 0xe38cc151u32,
        stepped(0x56319860u32) == 0x4de450c0u32,
        stepped(0xcd30977au32) == 0xb01da8b5u32,
        stepped(0x74cb4c92u32) == 0x1e753924u32,
        stepped(0x65b626ebu32) == 0x37bd8dd6u32,
        stepped(0xdc4dfd03u32) == 0x99d51c47u32,
        stepped(0xcca7a1d1u32) == 0xf11845e3u32,
        stepped(0x755c7a39u32) == 0x5f70d472u32,
        stepped(0x64211040u32) == 0x76b86080u32,
        stepped(0xdddacba8u32) == 0xd8d0f111u32,
        stepped(0x46dbc4b2u32) == 0x25290964u32,
        stepped(0xff201f5au32) == 0x8b4198f5u32,
        stepped(0xee5d7523u32) == 0xa2892c07u32,
        stepped(0x57a6aecbu32) == 0x0ce1bd96u32,
        stepped(0x032e6d56u32) == 0x820bdaacu32,
        stepped(0xbad5b6beu32) == 0x2c634b3du32,
        stepped(0xaba8dcc7u32) == 0x05abffcfu32,
        stepped(0x1253072fu32) == 0xabc36e5eu32,
        stepped(0x89520835u32) == 0x563a962bu32,
        stepped(0x30a9d3ddu32) == 0xf85207bau32,
        stepped(0x21d4b9a4u32) == 0xd19ab348u32,
        stepped(0x982f624cu32) == 0x7ff222d9u32,
        stepped(0xcafb7b7du32) == 0x2e7ef6fau32,
        stepped(0x7300a095u32) == 0x8016676bu32,
        stepped(0x627dcaecu32) == 0xa9ded399u32,
        stepped(0xdb861104u32) == 0x07b64208u32,
        stepped(0x40871e1eu32) == 0xfa4fba7du32,
        stepped(0xf97cc5f6u32) == 0x54272becu32,
        stepped(0xe801af8fu32) == 0x7def9f1eu32,
        stepped(0x51fa7467u32) == 0xd3870e8fu32,
        stepped(0x0572b7fau32) == 0x5d6d69b5u32,
        stepped(0xbc896c12u32) == 0xf305f824u32,
        stepped(0xadf4066bu32) == 0xdacd4cd6u32,
        stepped(0x140fdd83u32) == 0x74a5dd47u32,
        stepped(0x8f0ed299u32) == 0x895c2532u32,
        stepped(0x36f50971u32) == 0x2734b4a3u32,
        stepped(0x27886308u32) == 0x0efc0051u32,
        stepped(0x9e73b8e0u32) == 0xa09491c0u32,
        stepped(0x8e99e432u32) == 0xc859c864u32,
        stepped(0x37623fdau32) == 0x663159f5u32,
        stepped(0x261f55a3u32) == 0x4ff9ed07u32,
        stepped(0x9fe48e4bu32) == 0xe1917c96u32,
        stepped(0x04e58151u32) == 0x1c6884e3u32,
        stepped(0xbd1e5ab9u32) == 0xb2001572u32,
        stepped(0xac6330c0u32) == 0x9bc8a180u32,
        stepped(0x1598eb28u32) == 0x35a03011u32,
        stepped(0x411028b5u32) == 0xbb4a572bu32,
        stepped(0xf8ebf35du32) == 0x1522c6bau32,
        stepped(0xe9969924u32) == 0x3cea7248u32,
        stepped(0x506d42ccu32) == 0x9282e3d9u32,
        stepped(0xcb6c4dd6u32) == 0x6f7b1bacu32,
        stepped(0x7297963eu32) == 0xc1138a3du32,
        stepped(0x63eafc47u32) == 0xe8db3ecfu32,
        stepped(0xda1127afu32) == 0x46b3af5eu32,
        stepped(0x423e45e3u32) == 0x39418d87u32,
        stepped(0xfbc59e0bu32) == 0x97291c16u32,
        stepped(0xeab8f472u32) == 0xbee1a8e4u32,
        stepped(0x53432f9au32) == 0x10893975u32,
        stepped(0xc8422080u32) == 0xed70c100u32,
        stepped(0x71b9fb68u32) == 0x43185091u32,
        stepped(0x60c49111u32) == 0x6ad0e463u32,
        stepped(0xd93f4af9u32) == 0xc4b875f2u32,
        stepped(0x8db78964u32) == 0x4a5212c8u32,
        stepped(0x344c528cu32) == 0xe43a8359u32,
        stepped(0x253138f5u32) == 0xcdf237abu32,
        stepped(0x9ccae31du32) == 0x639aa63au32,
        stepped(0x07cbec07u32) == 0x9e635e4fu32,
        stepped(0xbe3037efu32) == 0x300bcfdeu32,
        stepped(0xaf4d5d96u32) == 0x19c37b2cu32,
        stepped(0x16b6867eu32) == 0xb7abeabdu32,
        stepped(0x065cdaacu32) == 0xdf66b319u32,
        stepped(0xbfa70144u32) == 0x710e2288u32,
        stepped(0xaeda6b3du32) == 0x58c6967au32,
        stepped(0x1721b0d5u32) == 0xf6ae07ebu32,
        stepped(0x8c20bfcfu32) == 0x0b57ff9eu32,
        stepped(0x35db6427u32) == 0xa53f6e0fu32,
        stepped(0x24a60e5eu32) == 0x8cf7dafdu32,
        stepped(0x9d5dd5b6u32) == 0x229f4b6cu32,
        stepped(0xc9d5162bu32) == 0xac752c56u32,
        stepped(0x702ecdc3u32) == 0x021dbdc7u32,
        stepped(0x6153a7bau32) == 0x2bd50935u32,
        stepped(0xd8a87c52u32) == 0x85bd98a4u32,
        stepped(0x43a97348u32) == 0x784460d1u32,
        stepped(0xfa52a8a0u32) == 0xd62cf140u32,
        stepped(0xeb2fc2d9u32) == 0xffe445b2u32,
        stepped(0x52d41931u32) == 0x518cd423u32,
        stepped(0x4e87f0bbu32) == 0x5cfdedf4u32,
        stepped(0xf77c2b53u32) == 0xf2957c65u32,
        stepped(0xe601412au32) == 0xdb5dc897u32,
        stepped(0x5ffa9ac2u32) == 0x75355906u32,
        stepped(0xc4fb95d8u32) == 0x88cca173u32,
        stepped(0x7d004e30u32) == 0x26a430e2u32,
        stepped(0x6c7d2449u32) == 0x0f6c8410u32,
        stepped(0xd586ffa1u32) == 0xa1041581u32,
        stepped(0x810e3c3cu32) == 0x2fee72bbu32,
        stepped(0x38f5e7d4u32) == 0x8186e32au32,
        stepped(0x29888dadu32) == 0xa84e57d8u32,
        stepped(0x90735645u32) == 0x0626c649u32,
        stepped(0x0b72595fu32) == 0xfbdf3e3cu32,
        stepped(0xb28982b7u32) == 0x55b7afadu32,
        stepped(0xa3f4e8ceu32) == 0x7c7f1b5fu32,
        stepped(0x1a0f3326u32) == 0xd2178aceu32,
        stepped(0x0ae56ff4u32) == 0xbadad36au32,
        stepped(0xb31eb41cu32) == 0x14b242fbu32,
        stepped(0xa263de65u32) == 0x3d7af609u32,
        stepped(0x1b98058du32) == 0x93126798u32,
        stepped(0x80990a97u32) == 0x6eeb9fedu32,
        stepped(0x3962d17fu32) == 0xc0830e7cu32,
        stepped(0x281fbb06u32) == 0xe94bba8eu32,
        stepped(0x91e460eeu32) == 0x47232b1fu32,
        stepped(0xc56ca373u32) == 0xc9c94c25u32,
        stepped(0x7c97789bu32) == 0x67a1ddb4u32,
        stepped(0x6dea12e2u32) == 0x4e696946u32,
        stepped(0xd411c90au32) == 0xe001f8d7u32,
        stepped(0x4f10c610u32) == 0x1df800a2u32,
        stepped(0xf6eb1df8u32) == 0xb3909133u32,
        stepped(0xe7967781u32) == 0x9a5825c1u32,
        stepped(0x5e6dac69u32) == 0x3430b450u32,
        stepped(0xc642ce25u32) == 0x4bc29689u32,
        stepped(0x7fb915cdu32) == 0xe5aa0718u32,
        stepped(0x6ec47fb4u32) == 0xcc62b3eau32,
        stepped(0xd73fa45cu32) == 0x620a227bu32,
        stepped(0x4c3eab46u32) == 0x9ff3da0eu32,
        stepped(0xf5c570aeu32) == 0x319b4b9fu32,
        stepped(0xe4b81ad7u32) == 0x1853ff6du32,
        stepped(0x5d43c13fu32) == 0xb63b6efcu32,
        stepped(0x09cb02a2u32) == 0x38d109c6u32,
        stepped(0xb030d94au32) == 0x96b99857u32,
        stepped(0xa14db333u32) == 0xbf712ca5u32,
        stepped(0x18b668dbu32) == 0x1119bd34u32,
        stepped(0x83b767c1u32) == 0xece04541u32,
        stepped(0x3a4cbc29u32) == 0x4288d4d0u32,
        stepped(0x2b31d650u32) == 0x6b406022u32,
        stepped(0x92ca0db8u32) == 0xc528f1b3u32,
        stepped(0x8220516au32) == 0xade5a817u32,
        stepped(0x3bdb8a82u32) == 0x038d3986u32,
        stepped(0x2aa6e0fbu32) == 0x2a458d74u32,
        stepped(0x935d3b13u32) == 0x842d1ce5u32,
        stepped(0x085c3409u32) == 0x79d4e490u32,
        stepped(0xb1a7efe1u32) == 0xd7bc7501u32,
        stepped(0xa0da8598u32) == 0xfe74c1f3u32,
        stepped(0x19215e70u32) == 0x501c5062u32,
        stepped(0x4da99dedu32) == 0xdef63758u32,
        stepped(0xf4524605u32) == 0x709ea6c9u32,
        stepped(0xe52f2c7cu32) == 0x5956123bu32,
        stepped(0x5cd4f794u32) == 0xf73e83aau32,
        stepped(0xc7d5f88eu32) == 0x0ac77bdfu32,
        stepped(0x7e2e2366u32) == 0xa4afea4eu32,
        stepped(0x6f53491fu32) == 0x8d675ebcu32,
        stepped(0xd6a892f7u32) == 0x230fcf2du32,
        stepped(0x847c8bc6u32) == 0x72831b0eu32,
        stepped(0x3d87502eu32) == 0xdceb8a9fu32,
        stepped(0x2cfa3a57u32) == 0xf5233e6du32,
        stepped(0x9501e1bfu32) == 0x5b4baffcu32,
        stepped(0x0e00eea5u32) == 0xa6b25789u32,
        stepped(0xb7fb354du32) == 0x08dac618u32,
        stepped(0xa6865f34u32) == 0x211272eau32,
        stepped(0x1f7d84dcu32) == 0x8f7ae37bu32,
        stepped(0x4bf54741u32) == 0x01908441u32,
        stepped(0xf20e9ca9u32) == 0xaff815d0u32,
        stepped(0xe373f6d0u32) == 0x8630a122u32,
        stepped(0x5a882d38u32) == 0x285830b3u32,
        stepped(0xc1892222u32) == 0xd5a1c8c6u32,
        stepped(0x7872f9cau32) == 0x7bc95957u32,
        stepped(0x690f93b3u32) == 0x5201eda5u32,
        stepped(0xd0f4485bu32) == 0xfc697c34u32,
        stepped(0xc01e1489u32) == 0x94a42590u32,
        stepped(0x79e5cf61u32) == 0x3accb401u32,
        stepped(0x6898a518u32) == 0x130400f3u32,
        stepped(0xd1637ef0u32) == 0xbd6c9162u32,
        stepped(0x4a6271eau32) == 0x40956917u32,
        stepped(0xf399aa02u32) == 0xeefdf886u32,
        stepped(0xe2e4c07bu32) == 0xc7354c74u32,
        stepped(0x5b1f1b93u32) == 0x695ddde5u32,
        stepped(0x0f97d80eu32) == 0xe7b7badfu32,
        stepped(0xb66c03e6u32) == 0x49df2b4eu32,
        stepped(0xa711699fu32) == 0x60179fbcu32,
        stepped(0x1eeab277u32) == 0xce7f0e2du32,
        stepped(0x85ebbd6du32) == 0x3386f658u32,
        stepped(0x3c106685u32) == 0x9dee67c9u32,
        stepped(0x2d6d0cfcu32) == 0xb426d33bu32,
        stepped(0x9496d714u32) == 0x1a4e42aau32,
        stepped(0x0cb9b558u32) == 0x65bc6073u32,
        stepped(0xb5426eb0u32) == 0xcbd4f1e2u32,
        stepped(0xa43f04c9u32) == 0xe21c4510u32,
        stepped(0x1dc4df21u32) == 0x4c74d481u32,
        stepped(0x86c5d03bu32) == 0xb18d2cf4u32,
        stepped(0x3f3e0bd3u32) == 0x1fe5bd65u32,
        stepped(0x2e4361aau32) == 0x362d0997u32,
        stepped(0x97b8ba42u32) == 0x98459806u32,
        stepped(0xc33079dfu32) == 0x16afff3cu32,
        stepped(0x7acba237u32) == 0xb8c76eadu32,
        stepped(0x6bb6c84eu32) == 0x910fda5fu32,
        stepped(0xd24d13a6u32) == 0x3f674bceu32,
        stepped(0x494c1cbcu32) == 0xc29eb3bbu32,
        stepped(0xf0b7c754u32) == 0x6cf6222au32,
        stepped(0xe1caad2du32) == 0x453e96d8u32,
        stepped(0x583176c5u32) == 0xeb560749u32,
        stepped(0x48db2a17u32) == 0x839b5eedu32,
        stepped(0xf120f1ffu32) == 0x2df3cf7cu32,
        stepped(0xe05d9b86u32) == 0x043b7b8eu32,
        stepped(0x59a6406eu32) == 0xaa53ea1fu32,
        stepped(0xc2a74f74u32) == 0x57aa126au32,
        stepped(0x7b5c949cu32) == 0xf9c283fbu32,
        stepped(0x6a21fee5u32) == 0xd00a3709u32,
        stepped(0xd3da250du32) == 0x7e62a698u32,
        stepped(0x8752e690u32) == 0xf088c1a2u32,
        stepped(0x3ea93d78u32) == 0x5ee05033u32,
        stepped(0x2fd45701u32) == 0x7728e4c1u32,
        stepped(0x962f8ce9u32) == 0xd9407550u32,
        stepped(0x0d2e83f3u32) == 0x24b98d25u32,
        stepped(0xb4d5581bu32) == 0x8ad11cb4u32,
        stepped(0xa5a83262u32) == 0xa319a846u32,
        stepped(0x1c53e98au32) == 0x0d7139d7u32,
{
}

} // verus!
