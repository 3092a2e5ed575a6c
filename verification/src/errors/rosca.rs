//! Namespaced error codes of the rotating savings contract (1000-1299).
use vstd::prelude::*;

verus! {

// Core Error variants (on-chain discriminant → namespaced code)
pub const ALREADY_INITIALIZED: u32 = 1001;
pub const TOKEN_NOT_APPROVED: u32 = 1002;
pub const CUSTOM_ORDER_LENGTH_MISMATCH: u32 = 1003;
pub const CUSTOM_ORDER_NON_MEMBER: u32 = 1004;
pub const AMOUNT_MUST_BE_POSITIVE: u32 = 1005;
pub const ROUND_DEADLINE_PASSED: u32 = 1006;
pub const MEMBER_HAS_EXITED: u32 = 1007;
pub const NOT_A_MEMBER: u32 = 1008;
pub const ALREADY_CONTRIBUTED: u32 = 1009;
pub const INVALID_EXCHANGE_RATE: u32 = 1010;
pub const EXCEEDS_TOKEN_LIMIT: u32 = 1011;
pub const EXCEEDS_REMAINING_CONTRIBUTION: u32 = 1012;
pub const DEADLINE_NOT_PASSED: u32 = 1013;
pub const PENALTY_DISABLED: u32 = 1014;
pub const NOT_A_DEFAULTER: u32 = 1015;
pub const CANNOT_CHANGE_MID_ROUND: u32 = 1016;
pub const ALREADY_A_MEMBER: u32 = 1017;
pub const NO_REWARDS_TO_CLAIM: u32 = 1018;
pub const ONLY_MEMBERS_ALLOWED: u32 = 1019;
pub const PROPOSAL_NOT_FOUND: u32 = 1020;
pub const VOTING_DEADLINE_PASSED: u32 = 1021;
pub const PROPOSAL_NOT_PENDING: u32 = 1022;
pub const ALREADY_VOTED: u32 = 1023;
pub const VOTING_NOT_ENDED: u32 = 1024;
pub const CONTRACT_PAUSED: u32 = 1025;
pub const ALL_MEMBERS_SUSPENDED: u32 = 1026;
pub const ALREADY_PAUSED: u32 = 1027;
pub const NOT_PAUSED: u32 = 1028;
pub const MEMBER_ALREADY_EXITED: u32 = 1029;
pub const EXIT_REQUEST_PENDING: u32 = 1030;
pub const NO_EXIT_REQUEST_FOUND: u32 = 1031;
pub const EXIT_NOT_ALLOWED_MID_ROUND: u32 = 1032;
pub const CONTRIBUTION_WINDOW_CLOSED: u32 = 1033;
pub const FEE_EXCEEDS_MAXIMUM: u32 = 1034;
pub const INVALID_MAX_DEFAULTS: u32 = 1035;
pub const GROUP_FULL: u32 = 1036;
pub const INVALID_MAX_MEMBERS: u32 = 1037;
pub const DELEGATION_ALREADY_EXISTS: u32 = 1038;
pub const NO_DELEGATION_FOUND: u32 = 1039;
pub const CANNOT_VOTE_WITH_ACTIVE_DELEGATION: u32 = 1040;
pub const CANNOT_SUB_DELEGATE: u32 = 1041;
pub const INVITE_NOT_FOUND: u32 = 1042;
pub const INVITE_ALREADY_REDEEMED: u32 = 1043;
pub const INVITE_WRONG_RECIPIENT: u32 = 1044;
pub const ADMIN_ACTION_NOT_FOUND: u32 = 1045;
pub const ADMIN_ACTION_ALREADY_EXECUTED: u32 = 1046;
pub const ADMIN_ACTION_EXPIRED: u32 = 1047;
pub const ADMIN_ALREADY_APPROVED: u32 = 1048;
pub const INSUFFICIENT_APPROVALS: u32 = 1049;
pub const NOT_A_CO_ADMIN: u32 = 1050;
// ExtError variants
pub const INVALID_TIER: u32 = 1051;
pub const INSURANCE_POOL_NEGATIVE: u32 = 1052;
pub const INVALID_INSURANCE_CONTRIBUTION: u32 = 1053;
pub const SKIP_LIMIT_REACHED: u32 = 1054;
pub const ALREADY_SKIPPED: u32 = 1055;
pub const INSUFFICIENT_WEIGHT: u32 = 1056;
pub const EMERGENCY_PAYOUT_REQUESTED: u32 = 1057;
pub const EMERGENCY_PAYOUT_QUORUM_NOT_MET: u32 = 1058;
pub const EMERGENCY_PAYOUT_VOTE_EXPIRED: u32 = 1059;
pub const EMERGENCY_PAYOUT_ALREADY_EXECUTED: u32 = 1060;
pub const EMERGENCY_PAYOUT_LIMIT_REACHED: u32 = 1061;
pub const GROUP_ALREADY_DISSOLVED: u32 = 1062;
pub const DISSOLUTION_VOTE_IN_PROGRESS: u32 = 1063;
pub const DISSOLUTION_QUORUM_NOT_MET: u32 = 1064;
pub const DISSOLUTION_VOTE_EXPIRED: u32 = 1065;
pub const NO_FUNDS_TO_DISTRIBUTE: u32 = 1066;
pub const INVALID_EMERGENCY_CONFIG: u32 = 1067;
pub const INVALID_DISSOLUTION_CONFIG: u32 = 1068;
pub const GROUP_NOT_YET_ACTIVE: u32 = 1069;
pub const ONLY_ADMIN_ALLOWED: u32 = 1070;
pub const INVALID_AMOUNT: u32 = 1071;
pub const CO_SIGNER_ALREADY_SET: u32 = 1072;
pub const NO_CO_SIGNER_FOUND: u32 = 1073;
pub const CO_SIGNER_NOT_ACCEPTED: u32 = 1074;
pub const NOT_THE_CO_SIGNER: u32 = 1075;
pub const CO_SIGNER_WINDOW_NOT_OPEN: u32 = 1076;
pub const CO_SIGNER_WINDOW_EXPIRED: u32 = 1077;
pub const GROUP_FROZEN: u32 = 1078;
pub const GROUP_NOT_FROZEN: u32 = 1079;
pub const SNAPSHOT_TOO_SOON: u32 = 1080;
pub const TIER_NOT_FOUND: u32 = 1081;
pub const INVALID_TIER_DEFINITION: u32 = 1082;
pub const INSUFFICIENT_CREDIT_SCORE: u32 = 1083;
pub const ROUND_DURATION_OUT_OF_BOUNDS: u32 = 1084;
pub const DELEGATION_EXPIRED: u32 = 1085;
pub const NOT_CONTRIB_DELEGATE: u32 = 1086;
pub const SPLIT_PROPOSAL_NOT_FOUND: u32 = 1087;
pub const SPLIT_MEMBERS_INVALID: u32 = 1088;
pub const SPLIT_CONFIRMATION_WINDOW_CLOSED: u32 = 1089;
pub const SOURCE_GROUP_ALREADY_SPLIT: u32 = 1090;
pub const SPLIT_ALREADY_CONFIRMED: u32 = 1091;
pub const SPLIT_NOT_FULLY_CONFIRMED: u32 = 1092;
// ExtError2 variants
pub const AUCTION_NOT_ENABLED: u32 = 1101;
pub const AUCTION_NOT_OPEN: u32 = 1102;
pub const AUCTION_WINDOW_CLOSED: u32 = 1103;
pub const INCORRECT_CONTRIBUTION_AMOUNT: u32 = 1104;
pub const INVALID_SLOT_INDEX: u32 = 1105;
pub const MIGRATION_ALREADY_EXECUTED: u32 = 1106;
pub const MIGRATION_ALREADY_PENDING: u32 = 1107;
pub const MIGRATION_NOT_APPROVED: u32 = 1108;
pub const MIGRATION_NOT_FOUND: u32 = 1109;
pub const NO_BID_FOUND: u32 = 1110;
pub const SLOT_OCCUPIED: u32 = 1111;
pub const TOKEN_MISMATCH: u32 = 1112;
pub const OUTSTANDING_LOAN_EXISTS: u32 = 1113;
pub const NO_COPAYERS_REGISTERED: u32 = 1114;
pub const COPAYER_AMOUNTS_MISMATCH: u32 = 1115;
pub const RECEIPT_NOT_FOUND: u32 = 1116;
pub const COPAYER_SPLITS_ALREADY_SET: u32 = 1117;
pub const PROXY_ROUNDS_EXHAUSTED: u32 = 1118;

} // verus!
