//! Decoder for a big-endian, pointer-graph binary container holding game
//! graphics assets: models, textures, skeletons, animations and embedded
//! files. The container is a tree of self-relative pointers rooted at a
//! header with twelve directory slots; names live in a shared string table.

mod anim;
mod embedded;
mod error;
mod fmdl;
mod fres;
mod ftex;
mod group;
mod pointer;
mod source;
mod swizzle;

pub use error::DecodeError;
pub use error::EnumKind;
pub use error::ReservedField;
pub use anim::FSCN;
pub use anim::FSHA;
pub use anim::FSHU;
pub use anim::FSKA;
pub use anim::FTXP;
pub use anim::FVIS;
pub use embedded::Embedded;
pub use error::check_magic_number;
pub use fmdl::BufferInfo;
pub use fmdl::Bone;
pub use fmdl::Flags;
pub use fmdl::RotationMode;
pub use fmdl::BillboardBonesProjectionMode;
pub use fmdl::TransformationFlags;
pub use fmdl::BoneHierarchyFlags;
pub use fmdl::FMDL;
pub use fmdl::FMDLHeader;
pub use fmdl::FVTX;
pub use fmdl::FVTXHeader;
pub use fmdl::FMAT;
pub use fmdl::FMATHeader;
pub use fmdl::FSKL;
pub use fmdl::FSKLHeader;
pub use fmdl::FSHP;
pub use fmdl::FSHPHeader;
pub use fmdl::fmdl_ok;
pub use fmdl::fmdl_err;
pub use fmdl::fmdl_parsed;
pub use fmdl::fmdl_import_ens;
pub use fmdl::fvtx_ok;
pub use fmdl::fvtx_err;
pub use fmdl::fvtx_parsed;
pub use fmdl::fshp_ok;
pub use fmdl::fshp_err;
pub use fmdl::fshp_parsed;
pub use fmdl::rel_ptr_at;
pub use fmdl::sign_extend_10;
pub use fmdl::unpack_3i10;
pub use fmdl::FVTXAttributes;
pub use fmdl::FVTXAttributesFormats;
pub use fmdl::FSHPLODModel;
pub use fmdl::FSHPLODModelPrimitiveType;
pub use fmdl::FSHPLODModelIndexFormat;
pub use fmdl::FSHPVisibilityGroup;
pub use fmdl::FSHPVisibilityGroupTree;
pub use fmdl::FMATRenderInfoParameter;
pub use fmdl::FMATTextureSampler;
pub use fmdl::FMATMaterialParameter;
pub use fmdl::FMATRenderState;
pub use fmdl::FMATShaderAssign;
pub use fmdl::FSKLBone;
pub use fmdl::FSKLSmoothMatrix;
pub use fmdl::FSKLRigidMatrix;
pub use fres::FRES;
pub use fres::FRESHeader;
pub use fres::SubFileIndexGroups;
pub use fres::dir_slot_ok;
pub use fres::dir_slot_err;
pub use fres::dir_slot_parsed;
pub use fres::dir_slots_ok;
pub use fres::dir_slots_err;
pub use fres::dir_slots_parsed;
pub use fres::fres_import_err_matches;
pub use fres::slot_count_agrees;
pub use fres::slot_names_in_table;
pub use fres::directory_counts_agree_spec;
pub use fres::names_resolve_spec;
pub use fres::FRESVersion;
pub use fres::StringTable;
pub use fres::string_table_from;
pub use fres::total_count_spec;
pub use fres::dir_offset_parsed;
pub use fres::fres_header_import_ens;
pub use ftex::FTEX;
pub use ftex::FTEXHeader;
pub use ftex::ftex_header_import_ens;
pub use ftex::FTEXDimension;
pub use ftex::FTEXFormat;
pub use ftex::FTEXAAMode;
pub use ftex::FTEXTileMode;
pub use ftex::FTEXComponentSelectorChannel;
pub use ftex::FTEXComponentSelector;
pub use ftex::FTEXUsage;
pub use group::index_group_count;
pub use group::index_group_entries_end;
pub use group::index_group_err;
pub use group::index_group_ok;
pub use group::DataArray;
pub use group::DataArrayEntry;
pub use group::Importable;
pub use group::IndexGroup;
pub use group::IndexGroupEntry;
pub use pointer::lemma_pointer_round_trip;
pub use swizzle::addr_linear;
pub use swizzle::addr_macro;
pub use swizzle::addr_micro;
pub use swizzle::bank_swapped_width;
pub use swizzle::deswizzle_bpp;
pub use swizzle::deswizzle_ok;
pub use swizzle::deswizzle;
pub use swizzle::deswizzled_byte;
pub use swizzle::lemma_deswizzle_linear_identity;
pub use swizzle::get_format_bits_per_pixel;
pub use swizzle::logical_height;
pub use swizzle::logical_width;
pub use swizzle::pixel_index_micro;
pub use swizzle::surface_addr;
pub use pointer::Pointer;
pub use source::ByteSource;

use vstd::prelude::*;

verus! {

/// Number of directory slots in the container header.
pub const SUB_FILE_KIND_COUNT: usize = 12;

} // verus!
