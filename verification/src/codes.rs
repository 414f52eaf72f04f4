//! The table of ESP-IDF error codes: each code, its symbolic name and its
//! description, as plain data, with the lookups that read it.

use vstd::prelude::*;

verus! {

/// Every ESP-IDF error code that this library knows, in ascending order.
pub const ESP_IDF_ERROR_CODES: [i32; 213] = [-1, 0x101, 0x102, 0x103, 0x104, 0x105, 0x106, 0x107, 0x108, 0x109, 0x10a, 0x10b, 0x10c, 0x10d, 0x1101, 0x1102, 0x1103, 0x1104, 0x1105, 0x1106, 0x1107, 0x1108, 0x1109, 0x110a, 0x110b, 0x110c, 0x110d, 0x110e, 0x110f, 0x1110, 0x1111, 0x1112, 0x1113, 0x1114, 0x1115, 0x1116, 0x1117, 0x1118, 0x1119, 0x1201, 0x1202, 0x1203, 0x1204, 0x1205, 0x1501, 0x1502, 0x1503, 0x1504, 0x1505, 0x1506, 0x1601, 0x1602, 0x1603, 0x1604, 0x1605, 0x1606, 0x2001, 0x2002, 0x3001, 0x3002, 0x3003, 0x3004, 0x3005, 0x3006, 0x3007, 0x3008, 0x3009, 0x300a, 0x300b, 0x300c, 0x300d, 0x300e, 0x300f, 0x3012, 0x3013, 0x3014, 0x3015, 0x3016, 0x3017, 0x3018, 0x3019, 0x301a, 0x301b, 0x301c, 0x3033, 0x3034, 0x3035, 0x3064, 0x3065, 0x3066, 0x3067, 0x3068, 0x3069, 0x306a, 0x306b, 0x306c, 0x306d, 0x3097, 0x3098, 0x3099, 0x309a, 0x309b, 0x309c, 0x4001, 0x4002, 0x4003, 0x4004, 0x4005, 0x4006, 0x4007, 0x4008, 0x4009, 0x400a, 0x400b, 0x400c, 0x400d, 0x400e, 0x400f, 0x4010, 0x4011, 0x4012, 0x4013, 0x4014, 0x4015, 0x4016, 0x4017, 0x4018, 0x4019, 0x401a, 0x5001, 0x5002, 0x5003, 0x5004, 0x5005, 0x5006, 0x5007, 0x5008, 0x5009, 0x500a, 0x500b, 0x500c, 0x500d, 0x500e, 0x6001, 0x6002, 0x6003, 0x6004, 0x6005, 0x6006, 0x7001, 0x7002, 0x7003, 0x7004, 0x7005, 0x7006, 0x7007, 0x7008, 0x7009, 0x700a, 0x700b, 0x700c, 0x8001, 0x8002, 0x8003, 0x8004, 0x8005, 0x8006, 0x8007, 0x8008, 0x8009, 0x8010, 0x8011, 0x8012, 0x8013, 0x8014, 0x8015, 0x8016, 0x8017, 0x8018, 0x8019, 0x801a, 0x801b, 0x801c, 0x801d, 0x9001, 0xb001, 0xb002, 0xb003, 0xb004, 0xb005, 0xb006, 0xb007, 0xb008, 0xc001, 0xc002, 0xc004, 0xc005, 0xd001, 0xd002, 0xd003, 0xd004, 0xd005, 0xd006, 0xd007, 0xd008, 0xe001, 0xe002, 0xe003, 0xe004, 0xf001, 0xf002, 0xf003, 0xf004];

/// The symbolic name of `code`, or `None` where `code` is no known error code.
pub open spec fn spec_error_name(code: i32) -> Option<Seq<char>> {
    match code {
        -1 => Some("ESP_FAIL"@),
        0x101 => Some("ESP_ERR_NO_MEM"@),
        0x102 => Some("ESP_ERR_INVALID_ARG"@),
        0x103 => Some("ESP_ERR_INVALID_STATE"@),
        0x104 => Some("ESP_ERR_INVALID_SIZE"@),
        0x105 => Some("ESP_ERR_NOT_FOUND"@),
        0x106 => Some("ESP_ERR_NOT_SUPPORTED"@),
        0x107 => Some("ESP_ERR_TIMEOUT"@),
        0x108 => Some("ESP_ERR_INVALID_RESPONSE"@),
        0x109 => Some("ESP_ERR_INVALID_CRC"@),
        0x10a => Some("ESP_ERR_INVALID_VERSION"@),
        0x10b => Some("ESP_ERR_INVALID_MAC"@),
        0x10c => Some("ESP_ERR_NOT_FINISHED"@),
        0x10d => Some("ESP_ERR_NOT_ALLOWED"@),
        0x1101 => Some("ESP_ERR_NVS_NOT_INITIALIZED"@),
        0x1102 => Some("ESP_ERR_NVS_NOT_FOUND"@),
        0x1103 => Some("ESP_ERR_NVS_TYPE_MISMATCH"@),
        0x1104 => Some("ESP_ERR_NVS_READ_ONLY"@),
        0x1105 => Some("ESP_ERR_NVS_NOT_ENOUGH_SPACE"@),
        0x1106 => Some("ESP_ERR_NVS_INVALID_NAME"@),
        0x1107 => Some("ESP_ERR_NVS_INVALID_HANDLE"@),
        0x1108 => Some("ESP_ERR_NVS_REMOVE_FAILED"@),
        0x1109 => Some("ESP_ERR_NVS_KEY_TOO_LONG"@),
        0x110a => Some("ESP_ERR_NVS_PAGE_FULL"@),
        0x110b => Some("ESP_ERR_NVS_INVALID_STATE"@),
        0x110c => Some("ESP_ERR_NVS_INVALID_LENGTH"@),
        0x110d => Some("ESP_ERR_NVS_NO_FREE_PAGES"@),
        0x110e => Some("ESP_ERR_NVS_VALUE_TOO_LONG"@),
        0x110f => Some("ESP_ERR_NVS_PART_NOT_FOUND"@),
        0x1110 => Some("ESP_ERR_NVS_NEW_VERSION_FOUND"@),
        0x1111 => Some("ESP_ERR_NVS_XTS_ENCR_FAILED"@),
        0x1112 => Some("ESP_ERR_NVS_XTS_DECR_FAILED"@),
        0x1113 => Some("ESP_ERR_NVS_XTS_CFG_FAILED"@),
        0x1114 => Some("ESP_ERR_NVS_XTS_CFG_NOT_FOUND"@),
        0x1115 => Some("ESP_ERR_NVS_ENCR_NOT_SUPPORTED"@),
        0x1116 => Some("ESP_ERR_NVS_KEYS_NOT_INITIALIZED"@),
        0x1117 => Some("ESP_ERR_NVS_CORRUPT_KEY_PART"@),
        0x1118 => Some("ESP_ERR_NVS_CONTENT_DIFFERS"@),
        0x1119 => Some("ESP_ERR_NVS_WRONG_ENCRYPTION"@),
        0x1201 => Some("ESP_ERR_ULP_SIZE_TOO_BIG"@),
        0x1202 => Some("ESP_ERR_ULP_INVALID_LOAD_ADDR"@),
        0x1203 => Some("ESP_ERR_ULP_DUPLICATE_LABEL"@),
        0x1204 => Some("ESP_ERR_ULP_UNDEFINED_LABEL"@),
        0x1205 => Some("ESP_ERR_ULP_BRANCH_OUT_OF_RANGE"@),
        0x1501 => Some("ESP_ERR_OTA_PARTITION_CONFLICT"@),
        0x1502 => Some("ESP_ERR_OTA_SELECT_INFO_INVALID"@),
        0x1503 => Some("ESP_ERR_OTA_VALIDATE_FAILED"@),
        0x1504 => Some("ESP_ERR_OTA_SMALL_SEC_VER"@),
        0x1505 => Some("ESP_ERR_OTA_ROLLBACK_FAILED"@),
        0x1506 => Some("ESP_ERR_OTA_ROLLBACK_INVALID_STATE"@),
        0x1601 => Some("ESP_OK_EFUSE_CNT"@),
        0x1602 => Some("ESP_ERR_EFUSE_CNT_IS_FULL"@),
        0x1603 => Some("ESP_ERR_EFUSE_REPEATED_PROG"@),
        0x1604 => Some("ESP_ERR_CODING"@),
        0x1605 => Some("ESP_ERR_NOT_ENOUGH_UNUSED_KEY_BLOCKS"@),
        0x1606 => Some("ESP_ERR_DAMAGED_READING"@),
        0x2001 => Some("ESP_ERR_IMAGE_FLASH_FAIL"@),
        0x2002 => Some("ESP_ERR_IMAGE_INVALID"@),
        0x3001 => Some("ESP_ERR_WIFI_NOT_INIT"@),
        0x3002 => Some("ESP_ERR_WIFI_NOT_STARTED"@),
        0x3003 => Some("ESP_ERR_WIFI_NOT_STOPPED"@),
        0x3004 => Some("ESP_ERR_WIFI_IF"@),
        0x3005 => Some("ESP_ERR_WIFI_MODE"@),
        0x3006 => Some("ESP_ERR_WIFI_STATE"@),
        0x3007 => Some("ESP_ERR_WIFI_CONN"@),
        0x3008 => Some("ESP_ERR_WIFI_NVS"@),
        0x3009 => Some("ESP_ERR_WIFI_MAC"@),
        0x300a => Some("ESP_ERR_WIFI_SSID"@),
        0x300b => Some("ESP_ERR_WIFI_PASSWORD"@),
        0x300c => Some("ESP_ERR_WIFI_TIMEOUT"@),
        0x300d => Some("ESP_ERR_WIFI_WAKE_FAIL"@),
        0x300e => Some("ESP_ERR_WIFI_WOULD_BLOCK"@),
        0x300f => Some("ESP_ERR_WIFI_NOT_CONNECT"@),
        0x3012 => Some("ESP_ERR_WIFI_POST"@),
        0x3013 => Some("ESP_ERR_WIFI_INIT_STATE"@),
        0x3014 => Some("ESP_ERR_WIFI_STOP_STATE"@),
        0x3015 => Some("ESP_ERR_WIFI_NOT_ASSOC"@),
        0x3016 => Some("ESP_ERR_WIFI_TX_DISALLOW"@),
        0x3017 => Some("ESP_ERR_WIFI_TWT_FULL"@),
        0x3018 => Some("ESP_ERR_WIFI_TWT_SETUP_TIMEOUT"@),
        0x3019 => Some("ESP_ERR_WIFI_TWT_SETUP_TXFAIL"@),
        0x301a => Some("ESP_ERR_WIFI_TWT_SETUP_REJECT"@),
        0x301b => Some("ESP_ERR_WIFI_DISCARD"@),
        0x301c => Some("ESP_ERR_WIFI_ROC_IN_PROGRESS"@),
        0x3033 => Some("ESP_ERR_WIFI_REGISTRAR"@),
        0x3034 => Some("ESP_ERR_WIFI_WPS_TYPE"@),
        0x3035 => Some("ESP_ERR_WIFI_WPS_SM"@),
        0x3064 => Some("ESP_ERR_ESPNOW_BASE"@),
        0x3065 => Some("ESP_ERR_ESPNOW_NOT_INIT"@),
        0x3066 => Some("ESP_ERR_ESPNOW_ARG"@),
        0x3067 => Some("ESP_ERR_ESPNOW_NO_MEM"@),
        0x3068 => Some("ESP_ERR_ESPNOW_FULL"@),
        0x3069 => Some("ESP_ERR_ESPNOW_NOT_FOUND"@),
        0x306a => Some("ESP_ERR_ESPNOW_INTERNAL"@),
        0x306b => Some("ESP_ERR_ESPNOW_EXIST"@),
        0x306c => Some("ESP_ERR_ESPNOW_IF"@),
        0x306d => Some("ESP_ERR_ESPNOW_CHAN"@),
        0x3097 => Some("ESP_ERR_DPP_FAILURE"@),
        0x3098 => Some("ESP_ERR_DPP_TX_FAILURE"@),
        0x3099 => Some("ESP_ERR_DPP_INVALID_ATTR"@),
        0x309a => Some("ESP_ERR_DPP_AUTH_TIMEOUT"@),
        0x309b => Some("ESP_ERR_DPP_INVALID_LIST"@),
        0x309c => Some("ESP_ERR_DPP_CONF_TIMEOUT"@),
        0x4001 => Some("ESP_ERR_MESH_WIFI_NOT_START"@),
        0x4002 => Some("ESP_ERR_MESH_NOT_INIT"@),
        0x4003 => Some("ESP_ERR_MESH_NOT_CONFIG"@),
        0x4004 => Some("ESP_ERR_MESH_NOT_START"@),
        0x4005 => Some("ESP_ERR_MESH_NOT_SUPPORT"@),
        0x4006 => Some("ESP_ERR_MESH_NOT_ALLOWED"@),
        0x4007 => Some("ESP_ERR_MESH_NO_MEMORY"@),
        0x4008 => Some("ESP_ERR_MESH_ARGUMENT"@),
        0x4009 => Some("ESP_ERR_MESH_EXCEED_MTU"@),
        0x400a => Some("ESP_ERR_MESH_TIMEOUT"@),
        0x400b => Some("ESP_ERR_MESH_DISCONNECTED"@),
        0x400c => Some("ESP_ERR_MESH_QUEUE_FAIL"@),
        0x400d => Some("ESP_ERR_MESH_QUEUE_FULL"@),
        0x400e => Some("ESP_ERR_MESH_NO_PARENT_FOUND"@),
        0x400f => Some("ESP_ERR_MESH_NO_ROUTE_FOUND"@),
        0x4010 => Some("ESP_ERR_MESH_OPTION_NULL"@),
        0x4011 => Some("ESP_ERR_MESH_OPTION_UNKNOWN"@),
        0x4012 => Some("ESP_ERR_MESH_XON_NO_WINDOW"@),
        0x4013 => Some("ESP_ERR_MESH_INTERFACE"@),
        0x4014 => Some("ESP_ERR_MESH_DISCARD_DUPLICATE"@),
        0x4015 => Some("ESP_ERR_MESH_DISCARD"@),
        0x4016 => Some("ESP_ERR_MESH_VOTING"@),
        0x4017 => Some("ESP_ERR_MESH_XMIT"@),
        0x4018 => Some("ESP_ERR_MESH_QUEUE_READ"@),
        0x4019 => Some("ESP_ERR_MESH_PS"@),
        0x401a => Some("ESP_ERR_MESH_RECV_RELEASE"@),
        0x5001 => Some("ESP_ERR_ESP_NETIF_INVALID_PARAMS"@),
        0x5002 => Some("ESP_ERR_ESP_NETIF_IF_NOT_READY"@),
        0x5003 => Some("ESP_ERR_ESP_NETIF_DHCPC_START_FAILED"@),
        0x5004 => Some("ESP_ERR_ESP_NETIF_DHCP_ALREADY_STARTED"@),
        0x5005 => Some("ESP_ERR_ESP_NETIF_DHCP_ALREADY_STOPPED"@),
        0x5006 => Some("ESP_ERR_ESP_NETIF_NO_MEM"@),
        0x5007 => Some("ESP_ERR_ESP_NETIF_DHCP_NOT_STOPPED"@),
        0x5008 => Some("ESP_ERR_ESP_NETIF_DRIVER_ATTACH_FAILED"@),
        0x5009 => Some("ESP_ERR_ESP_NETIF_INIT_FAILED"@),
        0x500a => Some("ESP_ERR_ESP_NETIF_DNS_NOT_CONFIGURED"@),
        0x500b => Some("ESP_ERR_ESP_NETIF_MLD6_FAILED"@),
        0x500c => Some("ESP_ERR_ESP_NETIF_IP6_ADDR_FAILED"@),
        0x500d => Some("ESP_ERR_ESP_NETIF_DHCPS_START_FAILED"@),
        0x500e => Some("ESP_ERR_ESP_NETIF_TX_FAILED"@),
        0x6001 => Some("ESP_ERR_FLASH_OP_FAIL"@),
        0x6002 => Some("ESP_ERR_FLASH_OP_TIMEOUT"@),
        0x6003 => Some("ESP_ERR_FLASH_NOT_INITIALISED"@),
        0x6004 => Some("ESP_ERR_FLASH_UNSUPPORTED_HOST"@),
        0x6005 => Some("ESP_ERR_FLASH_UNSUPPORTED_CHIP"@),
        0x6006 => Some("ESP_ERR_FLASH_PROTECTED"@),
        0x7001 => Some("ESP_ERR_HTTP_MAX_REDIRECT"@),
        0x7002 => Some("ESP_ERR_HTTP_CONNECT"@),
        0x7003 => Some("ESP_ERR_HTTP_WRITE_DATA"@),
        0x7004 => Some("ESP_ERR_HTTP_FETCH_HEADER"@),
        0x7005 => Some("ESP_ERR_HTTP_INVALID_TRANSPORT"@),
        0x7006 => Some("ESP_ERR_HTTP_CONNECTING"@),
        0x7007 => Some("ESP_ERR_HTTP_EAGAIN"@),
        0x7008 => Some("ESP_ERR_HTTP_CONNECTION_CLOSED"@),
        0x7009 => Some("ESP_ERR_HTTP_NOT_MODIFIED"@),
        0x700a => Some("ESP_ERR_HTTP_RANGE_NOT_SATISFIABLE"@),
        0x700b => Some("ESP_ERR_HTTP_READ_TIMEOUT"@),
        0x700c => Some("ESP_ERR_HTTP_INCOMPLETE_DATA"@),
        0x8001 => Some("ESP_ERR_ESP_TLS_CANNOT_RESOLVE_HOSTNAME"@),
        0x8002 => Some("ESP_ERR_ESP_TLS_CANNOT_CREATE_SOCKET"@),
        0x8003 => Some("ESP_ERR_ESP_TLS_UNSUPPORTED_PROTOCOL_FAMILY"@),
        0x8004 => Some("ESP_ERR_ESP_TLS_FAILED_CONNECT_TO_HOST"@),
        0x8005 => Some("ESP_ERR_ESP_TLS_SOCKET_SETOPT_FAILED"@),
        0x8006 => Some("ESP_ERR_ESP_TLS_CONNECTION_TIMEOUT"@),
        0x8007 => Some("ESP_ERR_ESP_TLS_SE_FAILED"@),
        0x8008 => Some("ESP_ERR_ESP_TLS_TCP_CLOSED_FIN"@),
        0x8009 => Some("ESP_ERR_ESP_TLS_SERVER_HANDSHAKE_TIMEOUT"@),
        0x8010 => Some("ESP_ERR_MBEDTLS_CERT_PARTLY_OK"@),
        0x8011 => Some("ESP_ERR_MBEDTLS_CTR_DRBG_SEED_FAILED"@),
        0x8012 => Some("ESP_ERR_MBEDTLS_SSL_SET_HOSTNAME_FAILED"@),
        0x8013 => Some("ESP_ERR_MBEDTLS_SSL_CONFIG_DEFAULTS_FAILED"@),
        0x8014 => Some("ESP_ERR_MBEDTLS_SSL_CONF_ALPN_PROTOCOLS_FAILED"@),
        0x8015 => Some("ESP_ERR_MBEDTLS_X509_CRT_PARSE_FAILED"@),
        0x8016 => Some("ESP_ERR_MBEDTLS_SSL_CONF_OWN_CERT_FAILED"@),
        0x8017 => Some("ESP_ERR_MBEDTLS_SSL_SETUP_FAILED"@),
        0x8018 => Some("ESP_ERR_MBEDTLS_SSL_WRITE_FAILED"@),
        0x8019 => Some("ESP_ERR_MBEDTLS_PK_PARSE_KEY_FAILED"@),
        0x801a => Some("ESP_ERR_MBEDTLS_SSL_HANDSHAKE_FAILED"@),
        0x801b => Some("ESP_ERR_MBEDTLS_SSL_CONF_PSK_FAILED"@),
        0x801c => Some("ESP_ERR_MBEDTLS_SSL_TICKET_SETUP_FAILED"@),
        0x801d => Some("ESP_ERR_MBEDTLS_SSL_READ_FAILED"@),
        0x9001 => Some("ESP_ERR_HTTPS_OTA_IN_PROGRESS"@),
        0xb001 => Some("ESP_ERR_HTTPD_HANDLERS_FULL"@),
        0xb002 => Some("ESP_ERR_HTTPD_HANDLER_EXISTS"@),
        0xb003 => Some("ESP_ERR_HTTPD_INVALID_REQ"@),
        0xb004 => Some("ESP_ERR_HTTPD_RESULT_TRUNC"@),
        0xb005 => Some("ESP_ERR_HTTPD_RESP_HDR"@),
        0xb006 => Some("ESP_ERR_HTTPD_RESP_SEND"@),
        0xb007 => Some("ESP_ERR_HTTPD_ALLOC_MEM"@),
        0xb008 => Some("ESP_ERR_HTTPD_TASK"@),
        0xc001 => Some("ESP_ERR_HW_CRYPTO_DS_HMAC_FAIL"@),
        0xc002 => Some("ESP_ERR_HW_CRYPTO_DS_INVALID_KEY"@),
        0xc004 => Some("ESP_ERR_HW_CRYPTO_DS_INVALID_DIGEST"@),
        0xc005 => Some("ESP_ERR_HW_CRYPTO_DS_INVALID_PADDING"@),
        0xd001 => Some("ESP_ERR_MEMPROT_MEMORY_TYPE_INVALID"@),
        0xd002 => Some("ESP_ERR_MEMPROT_SPLIT_ADDR_INVALID"@),
        0xd003 => Some("ESP_ERR_MEMPROT_SPLIT_ADDR_OUT_OF_RANGE"@),
        0xd004 => Some("ESP_ERR_MEMPROT_SPLIT_ADDR_UNALIGNED"@),
        0xd005 => Some("ESP_ERR_MEMPROT_UNIMGMT_BLOCK_INVALID"@),
        0xd006 => Some("ESP_ERR_MEMPROT_WORLD_INVALID"@),
        0xd007 => Some("ESP_ERR_MEMPROT_AREA_INVALID"@),
        0xd008 => Some("ESP_ERR_MEMPROT_CPUID_INVALID"@),
        0xe001 => Some("ESP_ERR_TCP_TRANSPORT_CONNECTION_TIMEOUT"@),
        0xe002 => Some("ESP_ERR_TCP_TRANSPORT_CONNECTION_CLOSED_BY_FIN"@),
        0xe003 => Some("ESP_ERR_TCP_TRANSPORT_CONNECTION_FAILED"@),
        0xe004 => Some("ESP_ERR_TCP_TRANSPORT_NO_MEM"@),
        0xf001 => Some("ESP_ERR_NVS_SEC_HMAC_KEY_NOT_FOUND"@),
        0xf002 => Some("ESP_ERR_NVS_SEC_HMAC_KEY_BLK_ALREADY_USED"@),
        0xf003 => Some("ESP_ERR_NVS_SEC_HMAC_KEY_GENERATION_FAILED"@),
        0xf004 => Some("ESP_ERR_NVS_SEC_HMAC_XTS_KEYS_DERIV_FAILED"@),
        _ => None,
    }
}

/// The description of `code` (its name in brackets, a colon and what it means),
/// or `None` where `code` is no known error code.
pub open spec fn spec_error_info(code: i32) -> Option<Seq<char>> {
    match code {
        -1 => Some("[ESP_FAIL]: Generic esp_err_t code indicating failure"@),
        0x101 => Some("[ESP_ERR_NO_MEM]: Out of memory"@),
        0x102 => Some("[ESP_ERR_INVALID_ARG]: Invalid argument"@),
        0x103 => Some("[ESP_ERR_INVALID_STATE]: Invalid state"@),
        0x104 => Some("[ESP_ERR_INVALID_SIZE]: Invalid size"@),
        0x105 => Some("[ESP_ERR_NOT_FOUND]: Requested resource not found"@),
        0x106 => Some("[ESP_ERR_NOT_SUPPORTED]: Operation or feature not supported"@),
        0x107 => Some("[ESP_ERR_TIMEOUT]: Operation timed out"@),
        0x108 => Some("[ESP_ERR_INVALID_RESPONSE]: Received response was invalid"@),
        0x109 => Some("[ESP_ERR_INVALID_CRC]: CRC or checksum was invalid"@),
        0x10a => Some("[ESP_ERR_INVALID_VERSION]: Version was invalid"@),
        0x10b => Some("[ESP_ERR_INVALID_MAC]: MAC address was invalid"@),
        0x10c => Some("[ESP_ERR_NOT_FINISHED]: Operation has not fully completed"@),
        0x10d => Some("[ESP_ERR_NOT_ALLOWED]: Operation is not allowed"@),
        0x1101 => Some("[ESP_ERR_NVS_NOT_INITIALIZED]: The storage driver is not initialized"@),
        0x1102 => Some("[ESP_ERR_NVS_NOT_FOUND]: A requested entry couldn't be found or namespace doesn’t exist yet and mode is NVS_READONLY"@),
        0x1103 => Some("[ESP_ERR_NVS_TYPE_MISMATCH]: The type of set or get operation doesn't match the type of value stored in NVS"@),
        0x1104 => Some("[ESP_ERR_NVS_READ_ONLY]: Storage handle was opened as read only"@),
        0x1105 => Some("[ESP_ERR_NVS_NOT_ENOUGH_SPACE]: There is not enough space in the underlying storage to save the value"@),
        0x1106 => Some("[ESP_ERR_NVS_INVALID_NAME]: Namespace name doesn’t satisfy constraints"@),
        0x1107 => Some("[ESP_ERR_NVS_INVALID_HANDLE]: Handle has been closed or is NULL"@),
        0x1108 => Some("[ESP_ERR_NVS_REMOVE_FAILED]: The value wasn’t updated because flash write operation has failed. The value was written however, and update will be finished after re-initialization of nvs, provided that flash operation doesn’t fail again."@),
        0x1109 => Some("[ESP_ERR_NVS_KEY_TOO_LONG]: Key name is too long"@),
        0x110a => Some("[ESP_ERR_NVS_PAGE_FULL]: Internal error; never returned by nvs API functions"@),
        0x110b => Some("[ESP_ERR_NVS_INVALID_STATE]: NVS is in an inconsistent state due to a previous error. Call nvs_flash_init and nvs_open again, then retry."@),
        0x110c => Some("[ESP_ERR_NVS_INVALID_LENGTH]: String or blob length is not sufficient to store data"@),
        0x110d => Some("[ESP_ERR_NVS_NO_FREE_PAGES]: NVS partition doesn't contain any empty pages. This may happen if NVS partition was truncated. Erase the whole partition and call nvs_flash_init again."@),
        0x110e => Some("[ESP_ERR_NVS_VALUE_TOO_LONG]: Value doesn't fit into the entry or string or blob length is longer than supported by the implementation"@),
        0x110f => Some("[ESP_ERR_NVS_PART_NOT_FOUND]: Partition with specified name is not found in the partition table"@),
        0x1110 => Some("[ESP_ERR_NVS_NEW_VERSION_FOUND]: NVS partition contains data in new format and cannot be recognized by this version of code"@),
        0x1111 => Some("[ESP_ERR_NVS_XTS_ENCR_FAILED]: XTS encryption failed while writing NVS entry"@),
        0x1112 => Some("[ESP_ERR_NVS_XTS_DECR_FAILED]: XTS decryption failed while reading NVS entry"@),
        0x1113 => Some("[ESP_ERR_NVS_XTS_CFG_FAILED]: XTS configuration setting failed"@),
        0x1114 => Some("[ESP_ERR_NVS_XTS_CFG_NOT_FOUND]: XTS configuration not found"@),
        0x1115 => Some("[ESP_ERR_NVS_ENCR_NOT_SUPPORTED]: NVS encryption is not supported in this version"@),
        0x1116 => Some("[ESP_ERR_NVS_KEYS_NOT_INITIALIZED]: NVS key partition is uninitialized"@),
        0x1117 => Some("[ESP_ERR_NVS_CORRUPT_KEY_PART]: NVS key partition is corrupt"@),
        0x1118 => Some("[ESP_ERR_NVS_CONTENT_DIFFERS]: Internal error; never returned by nvs API functions. NVS key is different in comparison"@),
        0x1119 => Some("[ESP_ERR_NVS_WRONG_ENCRYPTION]: NVS partition is marked as encrypted with generic flash encryption. This is forbidden since the NVS encryption works differently."@),
        0x1201 => Some("[ESP_ERR_ULP_SIZE_TOO_BIG]: Program doesn't fit into RTC memory reserved for the ULP"@),
        0x1202 => Some("[ESP_ERR_ULP_INVALID_LOAD_ADDR]: Load address is outside of RTC memory reserved for the ULP"@),
        0x1203 => Some("[ESP_ERR_ULP_DUPLICATE_LABEL]: More than one label with the same number was defined"@),
        0x1204 => Some("[ESP_ERR_ULP_UNDEFINED_LABEL]: Branch instructions references an undefined label"@),
        0x1205 => Some("[ESP_ERR_ULP_BRANCH_OUT_OF_RANGE]: Branch target is out of range of B instruction (try replacing with BX)"@),
        0x1501 => Some("[ESP_ERR_OTA_PARTITION_CONFLICT]: Error if request was to write or erase the current running partition"@),
        0x1502 => Some("[ESP_ERR_OTA_SELECT_INFO_INVALID]: Error if OTA data partition contains invalid content"@),
        0x1503 => Some("[ESP_ERR_OTA_VALIDATE_FAILED]: Error if OTA app image is invalid"@),
        0x1504 => Some("[ESP_ERR_OTA_SMALL_SEC_VER]: Error if the firmware has a secure version less than the running firmware."@),
        0x1505 => Some("[ESP_ERR_OTA_ROLLBACK_FAILED]: Error if flash does not have valid firmware in passive partition and hence rollback is not possible"@),
        0x1506 => Some("[ESP_ERR_OTA_ROLLBACK_INVALID_STATE]: Error if current active firmware is still marked in pending validation state (ESP_OTA_IMG_PENDING_VERIFY), essentially first boot of firmware image post upgrade and hence firmware upgrade is not possible"@),
        0x1601 => Some("[ESP_OK_EFUSE_CNT]: OK the required number of bits is set."@),
        0x1602 => Some("[ESP_ERR_EFUSE_CNT_IS_FULL]: Error field is full."@),
        0x1603 => Some("[ESP_ERR_EFUSE_REPEATED_PROG]: Error repeated programming of programmed bits is strictly forbidden."@),
        0x1604 => Some("[ESP_ERR_CODING]: Error while a encoding operation."@),
        0x1605 => Some("[ESP_ERR_NOT_ENOUGH_UNUSED_KEY_BLOCKS]: Error not enough unused key blocks available"@),
        0x1606 => Some("[ESP_ERR_DAMAGED_READING]: Error. Burn or reset was done during a reading operation leads to damage read data. This error is internal to the efuse component and not returned by any public API."@),
        0x2001 => Some("[ESP_ERR_IMAGE_FLASH_FAIL]: No further error description"@),
        0x2002 => Some("[ESP_ERR_IMAGE_INVALID]: No further error description"@),
        0x3001 => Some("[ESP_ERR_WIFI_NOT_INIT]: WiFi driver was not installed by esp_wifi_init"@),
        0x3002 => Some("[ESP_ERR_WIFI_NOT_STARTED]: WiFi driver was not started by esp_wifi_start"@),
        0x3003 => Some("[ESP_ERR_WIFI_NOT_STOPPED]: WiFi driver was not stopped by esp_wifi_stop"@),
        0x3004 => Some("[ESP_ERR_WIFI_IF]: WiFi interface error"@),
        0x3005 => Some("[ESP_ERR_WIFI_MODE]: WiFi mode error"@),
        0x3006 => Some("[ESP_ERR_WIFI_STATE]: WiFi internal state error"@),
        0x3007 => Some("[ESP_ERR_WIFI_CONN]: WiFi internal control block of station or soft-AP error"@),
        0x3008 => Some("[ESP_ERR_WIFI_NVS]: WiFi internal NVS module error"@),
        0x3009 => Some("[ESP_ERR_WIFI_MAC]: MAC address is invalid"@),
        0x300a => Some("[ESP_ERR_WIFI_SSID]: SSID is invalid"@),
        0x300b => Some("[ESP_ERR_WIFI_PASSWORD]: Password is invalid"@),
        0x300c => Some("[ESP_ERR_WIFI_TIMEOUT]: Timeout error"@),
        0x300d => Some("[ESP_ERR_WIFI_WAKE_FAIL]: WiFi is in sleep state(RF closed) and wakeup fail"@),
        0x300e => Some("[ESP_ERR_WIFI_WOULD_BLOCK]: The caller would block"@),
        0x300f => Some("[ESP_ERR_WIFI_NOT_CONNECT]: Station still in disconnect status"@),
        0x3012 => Some("[ESP_ERR_WIFI_POST]: Failed to post the event to WiFi task"@),
        0x3013 => Some("[ESP_ERR_WIFI_INIT_STATE]: Invalid WiFi state when init/deinit is called"@),
        0x3014 => Some("[ESP_ERR_WIFI_STOP_STATE]: Returned when WiFi is stopping"@),
        0x3015 => Some("[ESP_ERR_WIFI_NOT_ASSOC]: The WiFi connection is not associated"@),
        0x3016 => Some("[ESP_ERR_WIFI_TX_DISALLOW]: The WiFi TX is disallowed"@),
        0x3017 => Some("[ESP_ERR_WIFI_TWT_FULL]: no available flow id"@),
        0x3018 => Some("[ESP_ERR_WIFI_TWT_SETUP_TIMEOUT]: Timeout of receiving twt setup response frame, timeout times can be set during twt setup"@),
        0x3019 => Some("[ESP_ERR_WIFI_TWT_SETUP_TXFAIL]: TWT setup frame tx failed"@),
        0x301a => Some("[ESP_ERR_WIFI_TWT_SETUP_REJECT]: The twt setup request was rejected by the AP"@),
        0x301b => Some("[ESP_ERR_WIFI_DISCARD]: Discard frame"@),
        0x301c => Some("[ESP_ERR_WIFI_ROC_IN_PROGRESS]: ROC op is in progress"@),
        0x3033 => Some("[ESP_ERR_WIFI_REGISTRAR]: WPS registrar is not supported"@),
        0x3034 => Some("[ESP_ERR_WIFI_WPS_TYPE]: WPS type error"@),
        0x3035 => Some("[ESP_ERR_WIFI_WPS_SM]: WPS state machine is not initialized"@),
        0x3064 => Some("[ESP_ERR_ESPNOW_BASE]: ESPNOW error number base."@),
        0x3065 => Some("[ESP_ERR_ESPNOW_NOT_INIT]: ESPNOW is not initialized."@),
        0x3066 => Some("[ESP_ERR_ESPNOW_ARG]: Invalid argument"@),
        0x3067 => Some("[ESP_ERR_ESPNOW_NO_MEM]: Out of memory"@),
        0x3068 => Some("[ESP_ERR_ESPNOW_FULL]: ESPNOW peer list is full"@),
        0x3069 => Some("[ESP_ERR_ESPNOW_NOT_FOUND]: ESPNOW peer is not found"@),
        0x306a => Some("[ESP_ERR_ESPNOW_INTERNAL]: Internal error"@),
        0x306b => Some("[ESP_ERR_ESPNOW_EXIST]: ESPNOW peer has existed"@),
        0x306c => Some("[ESP_ERR_ESPNOW_IF]: Interface error"@),
        0x306d => Some("[ESP_ERR_ESPNOW_CHAN]: Channel error"@),
        0x3097 => Some("[ESP_ERR_DPP_FAILURE]: Generic failure during DPP Operation"@),
        0x3098 => Some("[ESP_ERR_DPP_TX_FAILURE]: DPP Frame Tx failed OR not Acked"@),
        0x3099 => Some("[ESP_ERR_DPP_INVALID_ATTR]: Encountered invalid DPP Attribute"@),
        0x309a => Some("[ESP_ERR_DPP_AUTH_TIMEOUT]: DPP Auth response was not received in time"@),
        0x309b => Some("[ESP_ERR_DPP_INVALID_LIST]: Channel list given in esp_supp_dpp_bootstrap_gen() is not valid or too big"@),
        0x309c => Some("[ESP_ERR_DPP_CONF_TIMEOUT]: DPP Configuration was not received in time"@),
        0x4001 => Some("[ESP_ERR_MESH_WIFI_NOT_START]: No further error description"@),
        0x4002 => Some("[ESP_ERR_MESH_NOT_INIT]: No further error description"@),
        0x4003 => Some("[ESP_ERR_MESH_NOT_CONFIG]: No further error description"@),
        0x4004 => Some("[ESP_ERR_MESH_NOT_START]: No further error description"@),
        0x4005 => Some("[ESP_ERR_MESH_NOT_SUPPORT]: No further error description"@),
        0x4006 => Some("[ESP_ERR_MESH_NOT_ALLOWED]: No further error description"@),
        0x4007 => Some("[ESP_ERR_MESH_NO_MEMORY]: No further error description"@),
        0x4008 => Some("[ESP_ERR_MESH_ARGUMENT]: No further error description"@),
        0x4009 => Some("[ESP_ERR_MESH_EXCEED_MTU]: No further error description"@),
        0x400a => Some("[ESP_ERR_MESH_TIMEOUT]: No further error description"@),
        0x400b => Some("[ESP_ERR_MESH_DISCONNECTED]: No further error description"@),
        0x400c => Some("[ESP_ERR_MESH_QUEUE_FAIL]: No further error description"@),
        0x400d => Some("[ESP_ERR_MESH_QUEUE_FULL]: No further error description"@),
        0x400e => Some("[ESP_ERR_MESH_NO_PARENT_FOUND]: No further error description"@),
        0x400f => Some("[ESP_ERR_MESH_NO_ROUTE_FOUND]: No further error description"@),
        0x4010 => Some("[ESP_ERR_MESH_OPTION_NULL]: No further error description"@),
        0x4011 => Some("[ESP_ERR_MESH_OPTION_UNKNOWN]: No further error description"@),
        0x4012 => Some("[ESP_ERR_MESH_XON_NO_WINDOW]: No further error description"@),
        0x4013 => Some("[ESP_ERR_MESH_INTERFACE]: No further error description"@),
        0x4014 => Some("[ESP_ERR_MESH_DISCARD_DUPLICATE]: No further error description"@),
        0x4015 => Some("[ESP_ERR_MESH_DISCARD]: No further error description"@),
        0x4016 => Some("[ESP_ERR_MESH_VOTING]: No further error description"@),
        0x4017 => Some("[ESP_ERR_MESH_XMIT]: No further error description"@),
        0x4018 => Some("[ESP_ERR_MESH_QUEUE_READ]: No further error description"@),
        0x4019 => Some("[ESP_ERR_MESH_PS]: No further error description"@),
        0x401a => Some("[ESP_ERR_MESH_RECV_RELEASE]: No further error description"@),
        0x5001 => Some("[ESP_ERR_ESP_NETIF_INVALID_PARAMS]: No further error description"@),
        0x5002 => Some("[ESP_ERR_ESP_NETIF_IF_NOT_READY]: No further error description"@),
        0x5003 => Some("[ESP_ERR_ESP_NETIF_DHCPC_START_FAILED]: No further error description"@),
        0x5004 => Some("[ESP_ERR_ESP_NETIF_DHCP_ALREADY_STARTED]: No further error description"@),
        0x5005 => Some("[ESP_ERR_ESP_NETIF_DHCP_ALREADY_STOPPED]: No further error description"@),
        0x5006 => Some("[ESP_ERR_ESP_NETIF_NO_MEM]: No further error description"@),
        0x5007 => Some("[ESP_ERR_ESP_NETIF_DHCP_NOT_STOPPED]: No further error description"@),
        0x5008 => Some("[ESP_ERR_ESP_NETIF_DRIVER_ATTACH_FAILED]: No further error description"@),
        0x5009 => Some("[ESP_ERR_ESP_NETIF_INIT_FAILED]: No further error description"@),
        0x500a => Some("[ESP_ERR_ESP_NETIF_DNS_NOT_CONFIGURED]: No further error description"@),
        0x500b => Some("[ESP_ERR_ESP_NETIF_MLD6_FAILED]: No further error description"@),
        0x500c => Some("[ESP_ERR_ESP_NETIF_IP6_ADDR_FAILED]: No further error description"@),
        0x500d => Some("[ESP_ERR_ESP_NETIF_DHCPS_START_FAILED]: No further error description"@),
        0x500e => Some("[ESP_ERR_ESP_NETIF_TX_FAILED]: No further error description"@),
        0x6001 => Some("[ESP_ERR_FLASH_OP_FAIL]: No further error description"@),
        0x6002 => Some("[ESP_ERR_FLASH_OP_TIMEOUT]: No further error description"@),
        0x6003 => Some("[ESP_ERR_FLASH_NOT_INITIALISED]: No further error description"@),
        0x6004 => Some("[ESP_ERR_FLASH_UNSUPPORTED_HOST]: No further error description"@),
        0x6005 => Some("[ESP_ERR_FLASH_UNSUPPORTED_CHIP]: No further error description"@),
        0x6006 => Some("[ESP_ERR_FLASH_PROTECTED]: No further error description"@),
        0x7001 => Some("[ESP_ERR_HTTP_MAX_REDIRECT]: The error exceeds the number of HTTP redirects"@),
        0x7002 => Some("[ESP_ERR_HTTP_CONNECT]: Error open the HTTP connection"@),
        0x7003 => Some("[ESP_ERR_HTTP_WRITE_DATA]: Error write HTTP data"@),
        0x7004 => Some("[ESP_ERR_HTTP_FETCH_HEADER]: Error read HTTP header from server"@),
        0x7005 => Some("[ESP_ERR_HTTP_INVALID_TRANSPORT]: There are no transport support for the input scheme"@),
        0x7006 => Some("[ESP_ERR_HTTP_CONNECTING]: HTTP connection hasn't been established yet"@),
        0x7007 => Some("[ESP_ERR_HTTP_EAGAIN]: Mapping of errno EAGAIN to esp_err_t"@),
        0x7008 => Some("[ESP_ERR_HTTP_CONNECTION_CLOSED]: Read FIN from peer and the connection closed"@),
        0x7009 => Some("[ESP_ERR_HTTP_NOT_MODIFIED]: HTTP 304 Not Modified, no update available"@),
        0x700a => Some("[ESP_ERR_HTTP_RANGE_NOT_SATISFIABLE]: HTTP 416 Range Not Satisfiable, requested range in header is incorrect"@),
        0x700b => Some("[ESP_ERR_HTTP_READ_TIMEOUT]: HTTP data read timeout"@),
        0x700c => Some("[ESP_ERR_HTTP_INCOMPLETE_DATA]: Incomplete data received, less than Content-Length or last chunk"@),
        0x8001 => Some("[ESP_ERR_ESP_TLS_CANNOT_RESOLVE_HOSTNAME]: Error if hostname couldn't be resolved upon tls connection"@),
        0x8002 => Some("[ESP_ERR_ESP_TLS_CANNOT_CREATE_SOCKET]: Failed to create socket"@),
        0x8003 => Some("[ESP_ERR_ESP_TLS_UNSUPPORTED_PROTOCOL_FAMILY]: Unsupported protocol family"@),
        0x8004 => Some("[ESP_ERR_ESP_TLS_FAILED_CONNECT_TO_HOST]: Failed to connect to host"@),
        0x8005 => Some("[ESP_ERR_ESP_TLS_SOCKET_SETOPT_FAILED]: failed to set/get socket option"@),
        0x8006 => Some("[ESP_ERR_ESP_TLS_CONNECTION_TIMEOUT]: new connection in esp_tls_low_level_conn connection timeouted"@),
        0x8007 => Some("[ESP_ERR_ESP_TLS_SE_FAILED]: No further error description"@),
        0x8008 => Some("[ESP_ERR_ESP_TLS_TCP_CLOSED_FIN]: No further error description"@),
        0x8009 => Some("[ESP_ERR_ESP_TLS_SERVER_HANDSHAKE_TIMEOUT]: TLS handshake timeout"@),
        0x8010 => Some("[ESP_ERR_MBEDTLS_CERT_PARTLY_OK]: mbedtls parse certificates was partly successful"@),
        0x8011 => Some("[ESP_ERR_MBEDTLS_CTR_DRBG_SEED_FAILED]: mbedtls api returned error"@),
        0x8012 => Some("[ESP_ERR_MBEDTLS_SSL_SET_HOSTNAME_FAILED]: mbedtls api returned error"@),
        0x8013 => Some("[ESP_ERR_MBEDTLS_SSL_CONFIG_DEFAULTS_FAILED]: mbedtls api returned error"@),
        0x8014 => Some("[ESP_ERR_MBEDTLS_SSL_CONF_ALPN_PROTOCOLS_FAILED]: mbedtls api returned error"@),
        0x8015 => Some("[ESP_ERR_MBEDTLS_X509_CRT_PARSE_FAILED]: mbedtls api returned error"@),
        0x8016 => Some("[ESP_ERR_MBEDTLS_SSL_CONF_OWN_CERT_FAILED]: mbedtls api returned error"@),
        0x8017 => Some("[ESP_ERR_MBEDTLS_SSL_SETUP_FAILED]: mbedtls api returned error"@),
        0x8018 => Some("[ESP_ERR_MBEDTLS_SSL_WRITE_FAILED]: mbedtls api returned error"@),
        0x8019 => Some("[ESP_ERR_MBEDTLS_PK_PARSE_KEY_FAILED]: mbedtls api returned failed"@),
        0x801a => Some("[ESP_ERR_MBEDTLS_SSL_HANDSHAKE_FAILED]: mbedtls api returned failed"@),
        0x801b => Some("[ESP_ERR_MBEDTLS_SSL_CONF_PSK_FAILED]: mbedtls api returned failed"@),
        0x801c => Some("[ESP_ERR_MBEDTLS_SSL_TICKET_SETUP_FAILED]: mbedtls api returned failed"@),
        0x801d => Some("[ESP_ERR_MBEDTLS_SSL_READ_FAILED]: mbedtls api returned failed"@),
        0x9001 => Some("[ESP_ERR_HTTPS_OTA_IN_PROGRESS]: No further error description"@),
        0xb001 => Some("[ESP_ERR_HTTPD_HANDLERS_FULL]: All slots for registering URI handlers have been consumed"@),
        0xb002 => Some("[ESP_ERR_HTTPD_HANDLER_EXISTS]: URI handler with same method and target URI already registered"@),
        0xb003 => Some("[ESP_ERR_HTTPD_INVALID_REQ]: Invalid request pointer"@),
        0xb004 => Some("[ESP_ERR_HTTPD_RESULT_TRUNC]: Result string truncated"@),
        0xb005 => Some("[ESP_ERR_HTTPD_RESP_HDR]: Response header field larger than supported"@),
        0xb006 => Some("[ESP_ERR_HTTPD_RESP_SEND]: Error occurred while sending response packet"@),
        0xb007 => Some("[ESP_ERR_HTTPD_ALLOC_MEM]: Failed to dynamically allocate memory for resource"@),
        0xb008 => Some("[ESP_ERR_HTTPD_TASK]: Failed to launch server task/thread"@),
        0xc001 => Some("[ESP_ERR_HW_CRYPTO_DS_HMAC_FAIL]: HMAC peripheral problem"@),
        0xc002 => Some("[ESP_ERR_HW_CRYPTO_DS_INVALID_KEY]: No further error description"@),
        0xc004 => Some("[ESP_ERR_HW_CRYPTO_DS_INVALID_DIGEST]: No further error description"@),
        0xc005 => Some("[ESP_ERR_HW_CRYPTO_DS_INVALID_PADDING]: No further error description"@),
        0xd001 => Some("[ESP_ERR_MEMPROT_MEMORY_TYPE_INVALID]: No further error description"@),
        0xd002 => Some("[ESP_ERR_MEMPROT_SPLIT_ADDR_INVALID]: No further error description"@),
        0xd003 => Some("[ESP_ERR_MEMPROT_SPLIT_ADDR_OUT_OF_RANGE]: No further error description"@),
        0xd004 => Some("[ESP_ERR_MEMPROT_SPLIT_ADDR_UNALIGNED]: No further error description"@),
        0xd005 => Some("[ESP_ERR_MEMPROT_UNIMGMT_BLOCK_INVALID]: No further error description"@),
        0xd006 => Some("[ESP_ERR_MEMPROT_WORLD_INVALID]: No further error description"@),
        0xd007 => Some("[ESP_ERR_MEMPROT_AREA_INVALID]: No further error description"@),
        0xd008 => Some("[ESP_ERR_MEMPROT_CPUID_INVALID]: No further error description"@),
        0xe001 => Some("[ESP_ERR_TCP_TRANSPORT_CONNECTION_TIMEOUT]: Connection has timed out"@),
        0xe002 => Some("[ESP_ERR_TCP_TRANSPORT_CONNECTION_CLOSED_BY_FIN]: Read FIN from peer and the connection has closed (in a clean way)"@),
        0xe003 => Some("[ESP_ERR_TCP_TRANSPORT_CONNECTION_FAILED]: Failed to connect to the peer"@),
        0xe004 => Some("[ESP_ERR_TCP_TRANSPORT_NO_MEM]: Memory allocation failed"@),
        0xf001 => Some("[ESP_ERR_NVS_SEC_HMAC_KEY_NOT_FOUND]: HMAC Key required to generate the NVS encryption keys not found"@),
        0xf002 => Some("[ESP_ERR_NVS_SEC_HMAC_KEY_BLK_ALREADY_USED]: Provided eFuse block for HMAC key generation is already in use"@),
        0xf003 => Some("[ESP_ERR_NVS_SEC_HMAC_KEY_GENERATION_FAILED]: Failed to generate/write the HMAC key to eFuse"@),
        0xf004 => Some("[ESP_ERR_NVS_SEC_HMAC_XTS_KEYS_DERIV_FAILED]: Failed to derive the NVS encryption keys based on the HMAC-based scheme"@),
        _ => None,
    }
}

/// `code` is one of the ESP-IDF error codes of the table.
pub open spec fn is_error_code(code: i32) -> bool {
    spec_error_name(code) is Some
}

/// Looks up the symbolic name of a known error code.
pub(crate) fn error_name_of(code: i32) -> (name: &'static str)
    requires
        is_error_code(code),
    ensures
        spec_error_name(code) == Some(name@),
{
    match code {
        -1 => "ESP_FAIL",
        0x101 => "ESP_ERR_NO_MEM",
        0x102 => "ESP_ERR_INVALID_ARG",
        0x103 => "ESP_ERR_INVALID_STATE",
        0x104 => "ESP_ERR_INVALID_SIZE",
        0x105 => "ESP_ERR_NOT_FOUND",
        0x106 => "ESP_ERR_NOT_SUPPORTED",
        0x107 => "ESP_ERR_TIMEOUT",
        0x108 => "ESP_ERR_INVALID_RESPONSE",
        0x109 => "ESP_ERR_INVALID_CRC",
        0x10a => "ESP_ERR_INVALID_VERSION",
        0x10b => "ESP_ERR_INVALID_MAC",
        0x10c => "ESP_ERR_NOT_FINISHED",
        0x10d => "ESP_ERR_NOT_ALLOWED",
        0x1101 => "ESP_ERR_NVS_NOT_INITIALIZED",
        0x1102 => "ESP_ERR_NVS_NOT_FOUND",
        0x1103 => "ESP_ERR_NVS_TYPE_MISMATCH",
        0x1104 => "ESP_ERR_NVS_READ_ONLY",
        0x1105 => "ESP_ERR_NVS_NOT_ENOUGH_SPACE",
        0x1106 => "ESP_ERR_NVS_INVALID_NAME",
        0x1107 => "ESP_ERR_NVS_INVALID_HANDLE",
        0x1108 => "ESP_ERR_NVS_REMOVE_FAILED",
        0x1109 => "ESP_ERR_NVS_KEY_TOO_LONG",
        0x110a => "ESP_ERR_NVS_PAGE_FULL",
        0x110b => "ESP_ERR_NVS_INVALID_STATE",
        0x110c => "ESP_ERR_NVS_INVALID_LENGTH",
        0x110d => "ESP_ERR_NVS_NO_FREE_PAGES",
        0x110e => "ESP_ERR_NVS_VALUE_TOO_LONG",
        0x110f => "ESP_ERR_NVS_PART_NOT_FOUND",
        0x1110 => "ESP_ERR_NVS_NEW_VERSION_FOUND",
        0x1111 => "ESP_ERR_NVS_XTS_ENCR_FAILED",
        0x1112 => "ESP_ERR_NVS_XTS_DECR_FAILED",
        0x1113 => "ESP_ERR_NVS_XTS_CFG_FAILED",
        0x1114 => "ESP_ERR_NVS_XTS_CFG_NOT_FOUND",
        0x1115 => "ESP_ERR_NVS_ENCR_NOT_SUPPORTED",
        0x1116 => "ESP_ERR_NVS_KEYS_NOT_INITIALIZED",
        0x1117 => "ESP_ERR_NVS_CORRUPT_KEY_PART",
        0x1118 => "ESP_ERR_NVS_CONTENT_DIFFERS",
        0x1119 => "ESP_ERR_NVS_WRONG_ENCRYPTION",
        0x1201 => "ESP_ERR_ULP_SIZE_TOO_BIG",
        0x1202 => "ESP_ERR_ULP_INVALID_LOAD_ADDR",
        0x1203 => "ESP_ERR_ULP_DUPLICATE_LABEL",
        0x1204 => "ESP_ERR_ULP_UNDEFINED_LABEL",
        0x1205 => "ESP_ERR_ULP_BRANCH_OUT_OF_RANGE",
        0x1501 => "ESP_ERR_OTA_PARTITION_CONFLICT",
        0x1502 => "ESP_ERR_OTA_SELECT_INFO_INVALID",
        0x1503 => "ESP_ERR_OTA_VALIDATE_FAILED",
        0x1504 => "ESP_ERR_OTA_SMALL_SEC_VER",
        0x1505 => "ESP_ERR_OTA_ROLLBACK_FAILED",
        0x1506 => "ESP_ERR_OTA_ROLLBACK_INVALID_STATE",
        0x1601 => "ESP_OK_EFUSE_CNT",
        0x1602 => "ESP_ERR_EFUSE_CNT_IS_FULL",
        0x1603 => "ESP_ERR_EFUSE_REPEATED_PROG",
        0x1604 => "ESP_ERR_CODING",
        0x1605 => "ESP_ERR_NOT_ENOUGH_UNUSED_KEY_BLOCKS",
        0x1606 => "ESP_ERR_DAMAGED_READING",
        0x2001 => "ESP_ERR_IMAGE_FLASH_FAIL",
        0x2002 => "ESP_ERR_IMAGE_INVALID",
        0x3001 => "ESP_ERR_WIFI_NOT_INIT",
        0x3002 => "ESP_ERR_WIFI_NOT_STARTED",
        0x3003 => "ESP_ERR_WIFI_NOT_STOPPED",
        0x3004 => "ESP_ERR_WIFI_IF",
        0x3005 => "ESP_ERR_WIFI_MODE",
        0x3006 => "ESP_ERR_WIFI_STATE",
        0x3007 => "ESP_ERR_WIFI_CONN",
        0x3008 => "ESP_ERR_WIFI_NVS",
        0x3009 => "ESP_ERR_WIFI_MAC",
        0x300a => "ESP_ERR_WIFI_SSID",
        0x300b => "ESP_ERR_WIFI_PASSWORD",
        0x300c => "ESP_ERR_WIFI_TIMEOUT",
        0x300d => "ESP_ERR_WIFI_WAKE_FAIL",
        0x300e => "ESP_ERR_WIFI_WOULD_BLOCK",
        0x300f => "ESP_ERR_WIFI_NOT_CONNECT",
        0x3012 => "ESP_ERR_WIFI_POST",
        0x3013 => "ESP_ERR_WIFI_INIT_STATE",
        0x3014 => "ESP_ERR_WIFI_STOP_STATE",
        0x3015 => "ESP_ERR_WIFI_NOT_ASSOC",
        0x3016 => "ESP_ERR_WIFI_TX_DISALLOW",
        0x3017 => "ESP_ERR_WIFI_TWT_FULL",
        0x3018 => "ESP_ERR_WIFI_TWT_SETUP_TIMEOUT",
        0x3019 => "ESP_ERR_WIFI_TWT_SETUP_TXFAIL",
        0x301a => "ESP_ERR_WIFI_TWT_SETUP_REJECT",
        0x301b => "ESP_ERR_WIFI_DISCARD",
        0x301c => "ESP_ERR_WIFI_ROC_IN_PROGRESS",
        0x3033 => "ESP_ERR_WIFI_REGISTRAR",
        0x3034 => "ESP_ERR_WIFI_WPS_TYPE",
        0x3035 => "ESP_ERR_WIFI_WPS_SM",
        0x3064 => "ESP_ERR_ESPNOW_BASE",
        0x3065 => "ESP_ERR_ESPNOW_NOT_INIT",
        0x3066 => "ESP_ERR_ESPNOW_ARG",
        0x3067 => "ESP_ERR_ESPNOW_NO_MEM",
        0x3068 => "ESP_ERR_ESPNOW_FULL",
        0x3069 => "ESP_ERR_ESPNOW_NOT_FOUND",
        0x306a => "ESP_ERR_ESPNOW_INTERNAL",
        0x306b => "ESP_ERR_ESPNOW_EXIST",
        0x306c => "ESP_ERR_ESPNOW_IF",
        0x306d => "ESP_ERR_ESPNOW_CHAN",
        0x3097 => "ESP_ERR_DPP_FAILURE",
        0x3098 => "ESP_ERR_DPP_TX_FAILURE",
        0x3099 => "ESP_ERR_DPP_INVALID_ATTR",
        0x309a => "ESP_ERR_DPP_AUTH_TIMEOUT",
        0x309b => "ESP_ERR_DPP_INVALID_LIST",
        0x309c => "ESP_ERR_DPP_CONF_TIMEOUT",
        0x4001 => "ESP_ERR_MESH_WIFI_NOT_START",
        0x4002 => "ESP_ERR_MESH_NOT_INIT",
        0x4003 => "ESP_ERR_MESH_NOT_CONFIG",
        0x4004 => "ESP_ERR_MESH_NOT_START",
        0x4005 => "ESP_ERR_MESH_NOT_SUPPORT",
        0x4006 => "ESP_ERR_MESH_NOT_ALLOWED",
        0x4007 => "ESP_ERR_MESH_NO_MEMORY",
        0x4008 => "ESP_ERR_MESH_ARGUMENT",
        0x4009 => "ESP_ERR_MESH_EXCEED_MTU",
        0x400a => "ESP_ERR_MESH_TIMEOUT",
        0x400b => "ESP_ERR_MESH_DISCONNECTED",
        0x400c => "ESP_ERR_MESH_QUEUE_FAIL",
        0x400d => "ESP_ERR_MESH_QUEUE_FULL",
        0x400e => "ESP_ERR_MESH_NO_PARENT_FOUND",
        0x400f => "ESP_ERR_MESH_NO_ROUTE_FOUND",
        0x4010 => "ESP_ERR_MESH_OPTION_NULL",
        0x4011 => "ESP_ERR_MESH_OPTION_UNKNOWN",
        0x4012 => "ESP_ERR_MESH_XON_NO_WINDOW",
        0x4013 => "ESP_ERR_MESH_INTERFACE",
        0x4014 => "ESP_ERR_MESH_DISCARD_DUPLICATE",
        0x4015 => "ESP_ERR_MESH_DISCARD",
        0x4016 => "ESP_ERR_MESH_VOTING",
        0x4017 => "ESP_ERR_MESH_XMIT",
        0x4018 => "ESP_ERR_MESH_QUEUE_READ",
        0x4019 => "ESP_ERR_MESH_PS",
        0x401a => "ESP_ERR_MESH_RECV_RELEASE",
        0x5001 => "ESP_ERR_ESP_NETIF_INVALID_PARAMS",
        0x5002 => "ESP_ERR_ESP_NETIF_IF_NOT_READY",
        0x5003 => "ESP_ERR_ESP_NETIF_DHCPC_START_FAILED",
        0x5004 => "ESP_ERR_ESP_NETIF_DHCP_ALREADY_STARTED",
        0x5005 => "ESP_ERR_ESP_NETIF_DHCP_ALREADY_STOPPED",
        0x5006 => "ESP_ERR_ESP_NETIF_NO_MEM",
        0x5007 => "ESP_ERR_ESP_NETIF_DHCP_NOT_STOPPED",
        0x5008 => "ESP_ERR_ESP_NETIF_DRIVER_ATTACH_FAILED",
        0x5009 => "ESP_ERR_ESP_NETIF_INIT_FAILED",
        0x500a => "ESP_ERR_ESP_NETIF_DNS_NOT_CONFIGURED",
        0x500b => "ESP_ERR_ESP_NETIF_MLD6_FAILED",
        0x500c => "ESP_ERR_ESP_NETIF_IP6_ADDR_FAILED",
        0x500d => "ESP_ERR_ESP_NETIF_DHCPS_START_FAILED",
        0x500e => "ESP_ERR_ESP_NETIF_TX_FAILED",
        0x6001 => "ESP_ERR_FLASH_OP_FAIL",
        0x6002 => "ESP_ERR_FLASH_OP_TIMEOUT",
        0x6003 => "ESP_ERR_FLASH_NOT_INITIALISED",
        0x6004 => "ESP_ERR_FLASH_UNSUPPORTED_HOST",
        0x6005 => "ESP_ERR_FLASH_UNSUPPORTED_CHIP",
        0x6006 => "ESP_ERR_FLASH_PROTECTED",
        0x7001 => "ESP_ERR_HTTP_MAX_REDIRECT",
        0x7002 => "ESP_ERR_HTTP_CONNECT",
        0x7003 => "ESP_ERR_HTTP_WRITE_DATA",
        0x7004 => "ESP_ERR_HTTP_FETCH_HEADER",
        0x7005 => "ESP_ERR_HTTP_INVALID_TRANSPORT",
        0x7006 => "ESP_ERR_HTTP_CONNECTING",
        0x7007 => "ESP_ERR_HTTP_EAGAIN",
        0x7008 => "ESP_ERR_HTTP_CONNECTION_CLOSED",
        0x7009 => "ESP_ERR_HTTP_NOT_MODIFIED",
        0x700a => "ESP_ERR_HTTP_RANGE_NOT_SATISFIABLE",
        0x700b => "ESP_ERR_HTTP_READ_TIMEOUT",
        0x700c => "ESP_ERR_HTTP_INCOMPLETE_DATA",
        0x8001 => "ESP_ERR_ESP_TLS_CANNOT_RESOLVE_HOSTNAME",
        0x8002 => "ESP_ERR_ESP_TLS_CANNOT_CREATE_SOCKET",
        0x8003 => "ESP_ERR_ESP_TLS_UNSUPPORTED_PROTOCOL_FAMILY",
        0x8004 => "ESP_ERR_ESP_TLS_FAILED_CONNECT_TO_HOST",
        0x8005 => "ESP_ERR_ESP_TLS_SOCKET_SETOPT_FAILED",
        0x8006 => "ESP_ERR_ESP_TLS_CONNECTION_TIMEOUT",
        0x8007 => "ESP_ERR_ESP_TLS_SE_FAILED",
        0x8008 => "ESP_ERR_ESP_TLS_TCP_CLOSED_FIN",
        0x8009 => "ESP_ERR_ESP_TLS_SERVER_HANDSHAKE_TIMEOUT",
        0x8010 => "ESP_ERR_MBEDTLS_CERT_PARTLY_OK",
        0x8011 => "ESP_ERR_MBEDTLS_CTR_DRBG_SEED_FAILED",
        0x8012 => "ESP_ERR_MBEDTLS_SSL_SET_HOSTNAME_FAILED",
        0x8013 => "ESP_ERR_MBEDTLS_SSL_CONFIG_DEFAULTS_FAILED",
        0x8014 => "ESP_ERR_MBEDTLS_SSL_CONF_ALPN_PROTOCOLS_FAILED",
        0x8015 => "ESP_ERR_MBEDTLS_X509_CRT_PARSE_FAILED",
        0x8016 => "ESP_ERR_MBEDTLS_SSL_CONF_OWN_CERT_FAILED",
        0x8017 => "ESP_ERR_MBEDTLS_SSL_SETUP_FAILED",
        0x8018 => "ESP_ERR_MBEDTLS_SSL_WRITE_FAILED",
        0x8019 => "ESP_ERR_MBEDTLS_PK_PARSE_KEY_FAILED",
        0x801a => "ESP_ERR_MBEDTLS_SSL_HANDSHAKE_FAILED",
        0x801b => "ESP_ERR_MBEDTLS_SSL_CONF_PSK_FAILED",
        0x801c => "ESP_ERR_MBEDTLS_SSL_TICKET_SETUP_FAILED",
        0x801d => "ESP_ERR_MBEDTLS_SSL_READ_FAILED",
        0x9001 => "ESP_ERR_HTTPS_OTA_IN_PROGRESS",
        0xb001 => "ESP_ERR_HTTPD_HANDLERS_FULL",
        0xb002 => "ESP_ERR_HTTPD_HANDLER_EXISTS",
        0xb003 => "ESP_ERR_HTTPD_INVALID_REQ",
        0xb004 => "ESP_ERR_HTTPD_RESULT_TRUNC",
        0xb005 => "ESP_ERR_HTTPD_RESP_HDR",
        0xb006 => "ESP_ERR_HTTPD_RESP_SEND",
        0xb007 => "ESP_ERR_HTTPD_ALLOC_MEM",
        0xb008 => "ESP_ERR_HTTPD_TASK",
        0xc001 => "ESP_ERR_HW_CRYPTO_DS_HMAC_FAIL",
        0xc002 => "ESP_ERR_HW_CRYPTO_DS_INVALID_KEY",
        0xc004 => "ESP_ERR_HW_CRYPTO_DS_INVALID_DIGEST",
        0xc005 => "ESP_ERR_HW_CRYPTO_DS_INVALID_PADDING",
        0xd001 => "ESP_ERR_MEMPROT_MEMORY_TYPE_INVALID",
        0xd002 => "ESP_ERR_MEMPROT_SPLIT_ADDR_INVALID",
        0xd003 => "ESP_ERR_MEMPROT_SPLIT_ADDR_OUT_OF_RANGE",
        0xd004 => "ESP_ERR_MEMPROT_SPLIT_ADDR_UNALIGNED",
        0xd005 => "ESP_ERR_MEMPROT_UNIMGMT_BLOCK_INVALID",
        0xd006 => "ESP_ERR_MEMPROT_WORLD_INVALID",
        0xd007 => "ESP_ERR_MEMPROT_AREA_INVALID",
        0xd008 => "ESP_ERR_MEMPROT_CPUID_INVALID",
        0xe001 => "ESP_ERR_TCP_TRANSPORT_CONNECTION_TIMEOUT",
        0xe002 => "ESP_ERR_TCP_TRANSPORT_CONNECTION_CLOSED_BY_FIN",
        0xe003 => "ESP_ERR_TCP_TRANSPORT_CONNECTION_FAILED",
        0xe004 => "ESP_ERR_TCP_TRANSPORT_NO_MEM",
        0xf001 => "ESP_ERR_NVS_SEC_HMAC_KEY_NOT_FOUND",
        0xf002 => "ESP_ERR_NVS_SEC_HMAC_KEY_BLK_ALREADY_USED",
        0xf003 => "ESP_ERR_NVS_SEC_HMAC_KEY_GENERATION_FAILED",
        0xf004 => "ESP_ERR_NVS_SEC_HMAC_XTS_KEYS_DERIV_FAILED",
        _ => {
            proof {
                assert(false);
            }
            ""
        },
    }
}

/// Looks up the description of a known error code.
pub(crate) fn error_info_of(code: i32) -> (info: &'static str)
    requires
        is_error_code(code),
    ensures
        spec_error_info(code) == Some(info@),
{
    match code {
        -1 => "[ESP_FAIL]: Generic esp_err_t code indicating failure",
        0x101 => "[ESP_ERR_NO_MEM]: Out of memory",
        0x102 => "[ESP_ERR_INVALID_ARG]: Invalid argument",
        0x103 => "[ESP_ERR_INVALID_STATE]: Invalid state",
        0x104 => "[ESP_ERR_INVALID_SIZE]: Invalid size",
        0x105 => "[ESP_ERR_NOT_FOUND]: Requested resource not found",
        0x106 => "[ESP_ERR_NOT_SUPPORTED]: Operation or feature not supported",
        0x107 => "[ESP_ERR_TIMEOUT]: Operation timed out",
        0x108 => "[ESP_ERR_INVALID_RESPONSE]: Received response was invalid",
        0x109 => "[ESP_ERR_INVALID_CRC]: CRC or checksum was invalid",
        0x10a => "[ESP_ERR_INVALID_VERSION]: Version was invalid",
        0x10b => "[ESP_ERR_INVALID_MAC]: MAC address was invalid",
        0x10c => "[ESP_ERR_NOT_FINISHED]: Operation has not fully completed",
        0x10d => "[ESP_ERR_NOT_ALLOWED]: Operation is not allowed",
        0x1101 => "[ESP_ERR_NVS_NOT_INITIALIZED]: The storage driver is not initialized",
        0x1102 => "[ESP_ERR_NVS_NOT_FOUND]: A requested entry couldn't be found or namespace doesn’t exist yet and mode is NVS_READONLY",
        0x1103 => "[ESP_ERR_NVS_TYPE_MISMATCH]: The type of set or get operation doesn't match the type of value stored in NVS",
        0x1104 => "[ESP_ERR_NVS_READ_ONLY]: Storage handle was opened as read only",
        0x1105 => "[ESP_ERR_NVS_NOT_ENOUGH_SPACE]: There is not enough space in the underlying storage to save the value",
        0x1106 => "[ESP_ERR_NVS_INVALID_NAME]: Namespace name doesn’t satisfy constraints",
        0x1107 => "[ESP_ERR_NVS_INVALID_HANDLE]: Handle has been closed or is NULL",
        0x1108 => "[ESP_ERR_NVS_REMOVE_FAILED]: The value wasn’t updated because flash write operation has failed. The value was written however, and update will be finished after re-initialization of nvs, provided that flash operation doesn’t fail again.",
        0x1109 => "[ESP_ERR_NVS_KEY_TOO_LONG]: Key name is too long",
        0x110a => "[ESP_ERR_NVS_PAGE_FULL]: Internal error; never returned by nvs API functions",
        0x110b => "[ESP_ERR_NVS_INVALID_STATE]: NVS is in an inconsistent state due to a previous error. Call nvs_flash_init and nvs_open again, then retry.",
        0x110c => "[ESP_ERR_NVS_INVALID_LENGTH]: String or blob length is not sufficient to store data",
        0x110d => "[ESP_ERR_NVS_NO_FREE_PAGES]: NVS partition doesn't contain any empty pages. This may happen if NVS partition was truncated. Erase the whole partition and call nvs_flash_init again.",
        0x110e => "[ESP_ERR_NVS_VALUE_TOO_LONG]: Value doesn't fit into the entry or string or blob length is longer than supported by the implementation",
        0x110f => "[ESP_ERR_NVS_PART_NOT_FOUND]: Partition with specified name is not found in the partition table",
        0x1110 => "[ESP_ERR_NVS_NEW_VERSION_FOUND]: NVS partition contains data in new format and cannot be recognized by this version of code",
        0x1111 => "[ESP_ERR_NVS_XTS_ENCR_FAILED]: XTS encryption failed while writing NVS entry",
        0x1112 => "[ESP_ERR_NVS_XTS_DECR_FAILED]: XTS decryption failed while reading NVS entry",
        0x1113 => "[ESP_ERR_NVS_XTS_CFG_FAILED]: XTS configuration setting failed",
        0x1114 => "[ESP_ERR_NVS_XTS_CFG_NOT_FOUND]: XTS configuration not found",
        0x1115 => "[ESP_ERR_NVS_ENCR_NOT_SUPPORTED]: NVS encryption is not supported in this version",
        0x1116 => "[ESP_ERR_NVS_KEYS_NOT_INITIALIZED]: NVS key partition is uninitialized",
        0x1117 => "[ESP_ERR_NVS_CORRUPT_KEY_PART]: NVS key partition is corrupt",
        0x1118 => "[ESP_ERR_NVS_CONTENT_DIFFERS]: Internal error; never returned by nvs API functions. NVS key is different in comparison",
        0x1119 => "[ESP_ERR_NVS_WRONG_ENCRYPTION]: NVS partition is marked as encrypted with generic flash encryption. This is forbidden since the NVS encryption works differently.",
        0x1201 => "[ESP_ERR_ULP_SIZE_TOO_BIG]: Program doesn't fit into RTC memory reserved for the ULP",
        0x1202 => "[ESP_ERR_ULP_INVALID_LOAD_ADDR]: Load address is outside of RTC memory reserved for the ULP",
        0x1203 => "[ESP_ERR_ULP_DUPLICATE_LABEL]: More than one label with the same number was defined",
        0x1204 => "[ESP_ERR_ULP_UNDEFINED_LABEL]: Branch instructions references an undefined label",
        0x1205 => "[ESP_ERR_ULP_BRANCH_OUT_OF_RANGE]: Branch target is out of range of B instruction (try replacing with BX)",
        0x1501 => "[ESP_ERR_OTA_PARTITION_CONFLICT]: Error if request was to write or erase the current running partition",
        0x1502 => "[ESP_ERR_OTA_SELECT_INFO_INVALID]: Error if OTA data partition contains invalid content",
        0x1503 => "[ESP_ERR_OTA_VALIDATE_FAILED]: Error if OTA app image is invalid",
        0x1504 => "[ESP_ERR_OTA_SMALL_SEC_VER]: Error if the firmware has a secure version less than the running firmware.",
        0x1505 => "[ESP_ERR_OTA_ROLLBACK_FAILED]: Error if flash does not have valid firmware in passive partition and hence rollback is not possible",
        0x1506 => "[ESP_ERR_OTA_ROLLBACK_INVALID_STATE]: Error if current active firmware is still marked in pending validation state (ESP_OTA_IMG_PENDING_VERIFY), essentially first boot of firmware image post upgrade and hence firmware upgrade is not possible",
        0x1601 => "[ESP_OK_EFUSE_CNT]: OK the required number of bits is set.",
        0x1602 => "[ESP_ERR_EFUSE_CNT_IS_FULL]: Error field is full.",
        0x1603 => "[ESP_ERR_EFUSE_REPEATED_PROG]: Error repeated programming of programmed bits is strictly forbidden.",
        0x1604 => "[ESP_ERR_CODING]: Error while a encoding operation.",
        0x1605 => "[ESP_ERR_NOT_ENOUGH_UNUSED_KEY_BLOCKS]: Error not enough unused key blocks available",
        0x1606 => "[ESP_ERR_DAMAGED_READING]: Error. Burn or reset was done during a reading operation leads to damage read data. This error is internal to the efuse component and not returned by any public API.",
        0x2001 => "[ESP_ERR_IMAGE_FLASH_FAIL]: No further error description",
        0x2002 => "[ESP_ERR_IMAGE_INVALID]: No further error description",
        0x3001 => "[ESP_ERR_WIFI_NOT_INIT]: WiFi driver was not installed by esp_wifi_init",
        0x3002 => "[ESP_ERR_WIFI_NOT_STARTED]: WiFi driver was not started by esp_wifi_start",
        0x3003 => "[ESP_ERR_WIFI_NOT_STOPPED]: WiFi driver was not stopped by esp_wifi_stop",
        0x3004 => "[ESP_ERR_WIFI_IF]: WiFi interface error",
        0x3005 => "[ESP_ERR_WIFI_MODE]: WiFi mode error",
        0x3006 => "[ESP_ERR_WIFI_STATE]: WiFi internal state error",
        0x3007 => "[ESP_ERR_WIFI_CONN]: WiFi internal control block of station or soft-AP error",
        0x3008 => "[ESP_ERR_WIFI_NVS]: WiFi internal NVS module error",
        0x3009 => "[ESP_ERR_WIFI_MAC]: MAC address is invalid",
        0x300a => "[ESP_ERR_WIFI_SSID]: SSID is invalid",
        0x300b => "[ESP_ERR_WIFI_PASSWORD]: Password is invalid",
        0x300c => "[ESP_ERR_WIFI_TIMEOUT]: Timeout error",
        0x300d => "[ESP_ERR_WIFI_WAKE_FAIL]: WiFi is in sleep state(RF closed) and wakeup fail",
        0x300e => "[ESP_ERR_WIFI_WOULD_BLOCK]: The caller would block",
        0x300f => "[ESP_ERR_WIFI_NOT_CONNECT]: Station still in disconnect status",
        0x3012 => "[ESP_ERR_WIFI_POST]: Failed to post the event to WiFi task",
        0x3013 => "[ESP_ERR_WIFI_INIT_STATE]: Invalid WiFi state when init/deinit is called",
        0x3014 => "[ESP_ERR_WIFI_STOP_STATE]: Returned when WiFi is stopping",
        0x3015 => "[ESP_ERR_WIFI_NOT_ASSOC]: The WiFi connection is not associated",
        0x3016 => "[ESP_ERR_WIFI_TX_DISALLOW]: The WiFi TX is disallowed",
        0x3017 => "[ESP_ERR_WIFI_TWT_FULL]: no available flow id",
        0x3018 => "[ESP_ERR_WIFI_TWT_SETUP_TIMEOUT]: Timeout of receiving twt setup response frame, timeout times can be set during twt setup",
        0x3019 => "[ESP_ERR_WIFI_TWT_SETUP_TXFAIL]: TWT setup frame tx failed",
        0x301a => "[ESP_ERR_WIFI_TWT_SETUP_REJECT]: The twt setup request was rejected by the AP",
        0x301b => "[ESP_ERR_WIFI_DISCARD]: Discard frame",
        0x301c => "[ESP_ERR_WIFI_ROC_IN_PROGRESS]: ROC op is in progress",
        0x3033 => "[ESP_ERR_WIFI_REGISTRAR]: WPS registrar is not supported",
        0x3034 => "[ESP_ERR_WIFI_WPS_TYPE]: WPS type error",
        0x3035 => "[ESP_ERR_WIFI_WPS_SM]: WPS state machine is not initialized",
        0x3064 => "[ESP_ERR_ESPNOW_BASE]: ESPNOW error number base.",
        0x3065 => "[ESP_ERR_ESPNOW_NOT_INIT]: ESPNOW is not initialized.",
        0x3066 => "[ESP_ERR_ESPNOW_ARG]: Invalid argument",
        0x3067 => "[ESP_ERR_ESPNOW_NO_MEM]: Out of memory",
        0x3068 => "[ESP_ERR_ESPNOW_FULL]: ESPNOW peer list is full",
        0x3069 => "[ESP_ERR_ESPNOW_NOT_FOUND]: ESPNOW peer is not found",
        0x306a => "[ESP_ERR_ESPNOW_INTERNAL]: Internal error",
        0x306b => "[ESP_ERR_ESPNOW_EXIST]: ESPNOW peer has existed",
        0x306c => "[ESP_ERR_ESPNOW_IF]: Interface error",
        0x306d => "[ESP_ERR_ESPNOW_CHAN]: Channel error",
        0x3097 => "[ESP_ERR_DPP_FAILURE]: Generic failure during DPP Operation",
        0x3098 => "[ESP_ERR_DPP_TX_FAILURE]: DPP Frame Tx failed OR not Acked",
        0x3099 => "[ESP_ERR_DPP_INVALID_ATTR]: Encountered invalid DPP Attribute",
        0x309a => "[ESP_ERR_DPP_AUTH_TIMEOUT]: DPP Auth response was not received in time",
        0x309b => "[ESP_ERR_DPP_INVALID_LIST]: Channel list given in esp_supp_dpp_bootstrap_gen() is not valid or too big",
        0x309c => "[ESP_ERR_DPP_CONF_TIMEOUT]: DPP Configuration was not received in time",
        0x4001 => "[ESP_ERR_MESH_WIFI_NOT_START]: No further error description",
        0x4002 => "[ESP_ERR_MESH_NOT_INIT]: No further error description",
        0x4003 => "[ESP_ERR_MESH_NOT_CONFIG]: No further error description",
        0x4004 => "[ESP_ERR_MESH_NOT_START]: No further error description",
        0x4005 => "[ESP_ERR_MESH_NOT_SUPPORT]: No further error description",
        0x4006 => "[ESP_ERR_MESH_NOT_ALLOWED]: No further error description",
        0x4007 => "[ESP_ERR_MESH_NO_MEMORY]: No further error description",
        0x4008 => "[ESP_ERR_MESH_ARGUMENT]: No further error description",
        0x4009 => "[ESP_ERR_MESH_EXCEED_MTU]: No further error description",
        0x400a => "[ESP_ERR_MESH_TIMEOUT]: No further error description",
        0x400b => "[ESP_ERR_MESH_DISCONNECTED]: No further error description",
        0x400c => "[ESP_ERR_MESH_QUEUE_FAIL]: No further error description",
        0x400d => "[ESP_ERR_MESH_QUEUE_FULL]: No further error description",
        0x400e => "[ESP_ERR_MESH_NO_PARENT_FOUND]: No further error description",
        0x400f => "[ESP_ERR_MESH_NO_ROUTE_FOUND]: No further error description",
        0x4010 => "[ESP_ERR_MESH_OPTION_NULL]: No further error description",
        0x4011 => "[ESP_ERR_MESH_OPTION_UNKNOWN]: No further error description",
        0x4012 => "[ESP_ERR_MESH_XON_NO_WINDOW]: No further error description",
        0x4013 => "[ESP_ERR_MESH_INTERFACE]: No further error description",
        0x4014 => "[ESP_ERR_MESH_DISCARD_DUPLICATE]: No further error description",
        0x4015 => "[ESP_ERR_MESH_DISCARD]: No further error description",
        0x4016 => "[ESP_ERR_MESH_VOTING]: No further error description",
        0x4017 => "[ESP_ERR_MESH_XMIT]: No further error description",
        0x4018 => "[ESP_ERR_MESH_QUEUE_READ]: No further error description",
        0x4019 => "[ESP_ERR_MESH_PS]: No further error description",
        0x401a => "[ESP_ERR_MESH_RECV_RELEASE]: No further error description",
        0x5001 => "[ESP_ERR_ESP_NETIF_INVALID_PARAMS]: No further error description",
        0x5002 => "[ESP_ERR_ESP_NETIF_IF_NOT_READY]: No further error description",
        0x5003 => "[ESP_ERR_ESP_NETIF_DHCPC_START_FAILED]: No further error description",
        0x5004 => "[ESP_ERR_ESP_NETIF_DHCP_ALREADY_STARTED]: No further error description",
        0x5005 => "[ESP_ERR_ESP_NETIF_DHCP_ALREADY_STOPPED]: No further error description",
        0x5006 => "[ESP_ERR_ESP_NETIF_NO_MEM]: No further error description",
        0x5007 => "[ESP_ERR_ESP_NETIF_DHCP_NOT_STOPPED]: No further error description",
        0x5008 => "[ESP_ERR_ESP_NETIF_DRIVER_ATTACH_FAILED]: No further error description",
        0x5009 => "[ESP_ERR_ESP_NETIF_INIT_FAILED]: No further error description",
        0x500a => "[ESP_ERR_ESP_NETIF_DNS_NOT_CONFIGURED]: No further error description",
        0x500b => "[ESP_ERR_ESP_NETIF_MLD6_FAILED]: No further error description",
        0x500c => "[ESP_ERR_ESP_NETIF_IP6_ADDR_FAILED]: No further error description",
        0x500d => "[ESP_ERR_ESP_NETIF_DHCPS_START_FAILED]: No further error description",
        0x500e => "[ESP_ERR_ESP_NETIF_TX_FAILED]: No further error description",
        0x6001 => "[ESP_ERR_FLASH_OP_FAIL]: No further error description",
        0x6002 => "[ESP_ERR_FLASH_OP_TIMEOUT]: No further error description",
        0x6003 => "[ESP_ERR_FLASH_NOT_INITIALISED]: No further error description",
        0x6004 => "[ESP_ERR_FLASH_UNSUPPORTED_HOST]: No further error description",
        0x6005 => "[ESP_ERR_FLASH_UNSUPPORTED_CHIP]: No further error description",
        0x6006 => "[ESP_ERR_FLASH_PROTECTED]: No further error description",
        0x7001 => "[ESP_ERR_HTTP_MAX_REDIRECT]: The error exceeds the number of HTTP redirects",
        0x7002 => "[ESP_ERR_HTTP_CONNECT]: Error open the HTTP connection",
        0x7003 => "[ESP_ERR_HTTP_WRITE_DATA]: Error write HTTP data",
        0x7004 => "[ESP_ERR_HTTP_FETCH_HEADER]: Error read HTTP header from server",
        0x7005 => "[ESP_ERR_HTTP_INVALID_TRANSPORT]: There are no transport support for the input scheme",
        0x7006 => "[ESP_ERR_HTTP_CONNECTING]: HTTP connection hasn't been established yet",
        0x7007 => "[ESP_ERR_HTTP_EAGAIN]: Mapping of errno EAGAIN to esp_err_t",
        0x7008 => "[ESP_ERR_HTTP_CONNECTION_CLOSED]: Read FIN from peer and the connection closed",
        0x7009 => "[ESP_ERR_HTTP_NOT_MODIFIED]: HTTP 304 Not Modified, no update available",
        0x700a => "[ESP_ERR_HTTP_RANGE_NOT_SATISFIABLE]: HTTP 416 Range Not Satisfiable, requested range in header is incorrect",
        0x700b => "[ESP_ERR_HTTP_READ_TIMEOUT]: HTTP data read timeout",
        0x700c => "[ESP_ERR_HTTP_INCOMPLETE_DATA]: Incomplete data received, less than Content-Length or last chunk",
        0x8001 => "[ESP_ERR_ESP_TLS_CANNOT_RESOLVE_HOSTNAME]: Error if hostname couldn't be resolved upon tls connection",
        0x8002 => "[ESP_ERR_ESP_TLS_CANNOT_CREATE_SOCKET]: Failed to create socket",
        0x8003 => "[ESP_ERR_ESP_TLS_UNSUPPORTED_PROTOCOL_FAMILY]: Unsupported protocol family",
        0x8004 => "[ESP_ERR_ESP_TLS_FAILED_CONNECT_TO_HOST]: Failed to connect to host",
        0x8005 => "[ESP_ERR_ESP_TLS_SOCKET_SETOPT_FAILED]: failed to set/get socket option",
        0x8006 => "[ESP_ERR_ESP_TLS_CONNECTION_TIMEOUT]: new connection in esp_tls_low_level_conn connection timeouted",
        0x8007 => "[ESP_ERR_ESP_TLS_SE_FAILED]: No further error description",
        0x8008 => "[ESP_ERR_ESP_TLS_TCP_CLOSED_FIN]: No further error description",
        0x8009 => "[ESP_ERR_ESP_TLS_SERVER_HANDSHAKE_TIMEOUT]: TLS handshake timeout",
        0x8010 => "[ESP_ERR_MBEDTLS_CERT_PARTLY_OK]: mbedtls parse certificates was partly successful",
        0x8011 => "[ESP_ERR_MBEDTLS_CTR_DRBG_SEED_FAILED]: mbedtls api returned error",
        0x8012 => "[ESP_ERR_MBEDTLS_SSL_SET_HOSTNAME_FAILED]: mbedtls api returned error",
        0x8013 => "[ESP_ERR_MBEDTLS_SSL_CONFIG_DEFAULTS_FAILED]: mbedtls api returned error",
        0x8014 => "[ESP_ERR_MBEDTLS_SSL_CONF_ALPN_PROTOCOLS_FAILED]: mbedtls api returned error",
        0x8015 => "[ESP_ERR_MBEDTLS_X509_CRT_PARSE_FAILED]: mbedtls api returned error",
        0x8016 => "[ESP_ERR_MBEDTLS_SSL_CONF_OWN_CERT_FAILED]: mbedtls api returned error",
        0x8017 => "[ESP_ERR_MBEDTLS_SSL_SETUP_FAILED]: mbedtls api returned error",
        0x8018 => "[ESP_ERR_MBEDTLS_SSL_WRITE_FAILED]: mbedtls api returned error",
        0x8019 => "[ESP_ERR_MBEDTLS_PK_PARSE_KEY_FAILED]: mbedtls api returned failed",
        0x801a => "[ESP_ERR_MBEDTLS_SSL_HANDSHAKE_FAILED]: mbedtls api returned failed",
        0x801b => "[ESP_ERR_MBEDTLS_SSL_CONF_PSK_FAILED]: mbedtls api returned failed",
        0x801c => "[ESP_ERR_MBEDTLS_SSL_TICKET_SETUP_FAILED]: mbedtls api returned failed",
        0x801d => "[ESP_ERR_MBEDTLS_SSL_READ_FAILED]: mbedtls api returned failed",
        0x9001 => "[ESP_ERR_HTTPS_OTA_IN_PROGRESS]: No further error description",
        0xb001 => "[ESP_ERR_HTTPD_HANDLERS_FULL]: All slots for registering URI handlers have been consumed",
        0xb002 => "[ESP_ERR_HTTPD_HANDLER_EXISTS]: URI handler with same method and target URI already registered",
        0xb003 => "[ESP_ERR_HTTPD_INVALID_REQ]: Invalid request pointer",
        0xb004 => "[ESP_ERR_HTTPD_RESULT_TRUNC]: Result string truncated",
        0xb005 => "[ESP_ERR_HTTPD_RESP_HDR]: Response header field larger than supported",
        0xb006 => "[ESP_ERR_HTTPD_RESP_SEND]: Error occurred while sending response packet",
        0xb007 => "[ESP_ERR_HTTPD_ALLOC_MEM]: Failed to dynamically allocate memory for resource",
        0xb008 => "[ESP_ERR_HTTPD_TASK]: Failed to launch server task/thread",
        0xc001 => "[ESP_ERR_HW_CRYPTO_DS_HMAC_FAIL]: HMAC peripheral problem",
        0xc002 => "[ESP_ERR_HW_CRYPTO_DS_INVALID_KEY]: No further error description",
        0xc004 => "[ESP_ERR_HW_CRYPTO_DS_INVALID_DIGEST]: No further error description",
        0xc005 => "[ESP_ERR_HW_CRYPTO_DS_INVALID_PADDING]: No further error description",
        0xd001 => "[ESP_ERR_MEMPROT_MEMORY_TYPE_INVALID]: No further error description",
        0xd002 => "[ESP_ERR_MEMPROT_SPLIT_ADDR_INVALID]: No further error description",
        0xd003 => "[ESP_ERR_MEMPROT_SPLIT_ADDR_OUT_OF_RANGE]: No further error description",
        0xd004 => "[ESP_ERR_MEMPROT_SPLIT_ADDR_UNALIGNED]: No further error description",
        0xd005 => "[ESP_ERR_MEMPROT_UNIMGMT_BLOCK_INVALID]: No further error description",
        0xd006 => "[ESP_ERR_MEMPROT_WORLD_INVALID]: No further error description",
        0xd007 => "[ESP_ERR_MEMPROT_AREA_INVALID]: No further error description",
        0xd008 => "[ESP_ERR_MEMPROT_CPUID_INVALID]: No further error description",
        0xe001 => "[ESP_ERR_TCP_TRANSPORT_CONNECTION_TIMEOUT]: Connection has timed out",
        0xe002 => "[ESP_ERR_TCP_TRANSPORT_CONNECTION_CLOSED_BY_FIN]: Read FIN from peer and the connection has closed (in a clean way)",
        0xe003 => "[ESP_ERR_TCP_TRANSPORT_CONNECTION_FAILED]: Failed to connect to the peer",
        0xe004 => "[ESP_ERR_TCP_TRANSPORT_NO_MEM]: Memory allocation failed",
        0xf001 => "[ESP_ERR_NVS_SEC_HMAC_KEY_NOT_FOUND]: HMAC Key required to generate the NVS encryption keys not found",
        0xf002 => "[ESP_ERR_NVS_SEC_HMAC_KEY_BLK_ALREADY_USED]: Provided eFuse block for HMAC key generation is already in use",
        0xf003 => "[ESP_ERR_NVS_SEC_HMAC_KEY_GENERATION_FAILED]: Failed to generate/write the HMAC key to eFuse",
        0xf004 => "[ESP_ERR_NVS_SEC_HMAC_XTS_KEYS_DERIV_FAILED]: Failed to derive the NVS encryption keys based on the HMAC-based scheme",
        _ => {
            proof {
                assert(false);
            }
            ""
        },
    }
}

/// Decides whether `code` is one of the table's error codes.
pub(crate) fn is_known_code(code: i32) -> (known: bool)
    ensures
        known == is_error_code(code),
{
    match code {
        -1 | 0x101 | 0x102 | 0x103 | 0x104 | 0x105 | 0x106 | 0x107 | 0x108 | 0x109 | 0x10a | 0x10b | 0x10c | 0x10d | 0x1101 | 0x1102 | 0x1103 | 0x1104 | 0x1105 | 0x1106 | 0x1107 | 0x1108 | 0x1109 | 0x110a | 0x110b | 0x110c | 0x110d | 0x110e | 0x110f | 0x1110 | 0x1111 | 0x1112 | 0x1113 | 0x1114 | 0x1115 | 0x1116 | 0x1117 | 0x1118 | 0x1119 | 0x1201 | 0x1202 | 0x1203 | 0x1204 | 0x1205 | 0x1501 | 0x1502 | 0x1503 | 0x1504 | 0x1505 | 0x1506 | 0x1601 | 0x1602 | 0x1603 | 0x1604 | 0x1605 | 0x1606 | 0x2001 | 0x2002 | 0x3001 | 0x3002 | 0x3003 | 0x3004 | 0x3005 | 0x3006 | 0x3007 | 0x3008 | 0x3009 | 0x300a | 0x300b | 0x300c | 0x300d | 0x300e | 0x300f | 0x3012 | 0x3013 | 0x3014 | 0x3015 | 0x3016 | 0x3017 | 0x3018 | 0x3019 | 0x301a | 0x301b | 0x301c | 0x3033 | 0x3034 | 0x3035 | 0x3064 | 0x3065 | 0x3066 | 0x3067 | 0x3068 | 0x3069 | 0x306a | 0x306b | 0x306c | 0x306d | 0x3097 | 0x3098 | 0x3099 | 0x309a | 0x309b | 0x309c | 0x4001 | 0x4002 | 0x4003 | 0x4004 | 0x4005 | 0x4006 | 0x4007 | 0x4008 | 0x4009 | 0x400a | 0x400b | 0x400c | 0x400d | 0x400e | 0x400f | 0x4010 | 0x4011 | 0x4012 | 0x4013 | 0x4014 | 0x4015 | 0x4016 | 0x4017 | 0x4018 | 0x4019 | 0x401a | 0x5001 | 0x5002 | 0x5003 | 0x5004 | 0x5005 | 0x5006 | 0x5007 | 0x5008 | 0x5009 | 0x500a | 0x500b | 0x500c | 0x500d | 0x500e | 0x6001 | 0x6002 | 0x6003 | 0x6004 | 0x6005 | 0x6006 | 0x7001 | 0x7002 | 0x7003 | 0x7004 | 0x7005 | 0x7006 | 0x7007 | 0x7008 | 0x7009 | 0x700a | 0x700b | 0x700c | 0x8001 | 0x8002 | 0x8003 | 0x8004 | 0x8005 | 0x8006 | 0x8007 | 0x8008 | 0x8009 | 0x8010 | 0x8011 | 0x8012 | 0x8013 | 0x8014 | 0x8015 | 0x8016 | 0x8017 | 0x8018 | 0x8019 | 0x801a | 0x801b | 0x801c | 0x801d | 0x9001 | 0xb001 | 0xb002 | 0xb003 | 0xb004 | 0xb005 | 0xb006 | 0xb007 | 0xb008 | 0xc001 | 0xc002 | 0xc004 | 0xc005 | 0xd001 | 0xd002 | 0xd003 | 0xd004 | 0xd005 | 0xd006 | 0xd007 | 0xd008 | 0xe001 | 0xe002 | 0xe003 | 0xe004 | 0xf001 | 0xf002 | 0xf003 | 0xf004 => true,
        _ => false,
    }
}


/// A character that may stand in an error name: an uppercase letter, a digit or `_`.
pub open spec fn is_name_char(c: char) -> bool {
    ||| 'A' <= c <= 'Z'
    ||| '0' <= c <= '9'
    ||| c == '_'
}

/// `name` has the shape of an ESP-IDF error name: it begins with `ESP_`, has at
/// least 8 characters, and holds only uppercase letters, digits and `_`.
pub open spec fn is_error_name_shape(name: Seq<char>) -> bool {
    &&& name.len() >= 8
    &&& name.subrange(0, 4) == seq!['E', 'S', 'P', '_']
    &&& forall|i: int| 0 <= i < name.len() ==> is_name_char(#[trigger] name[i])
}

/// For a name of the table, the code it names, told from the name's length and
/// as few of its characters as set the table's names apart.
spec fn code_named(name: Seq<char>) -> i32 {
    if name.len() == 8 {
        -1i32
    } else if name.len() == 14 {
        if name[8] == 'C' {
            0x1604i32
        } else {
            0x101i32
        }
    } else if name.len() == 15 {
        if name[8] == 'M' {
            0x4019i32
        } else if name[8] == 'T' {
            0x107i32
        } else {
            0x3004i32
        }
    } else if name.len() == 16 {
        if name[13] == 'C' {
            0x1601i32
        } else if name[13] == 'M' {
            0x3009i32
        } else {
            0x3008i32
        }
    } else if name.len() == 17 {
        if name[13] == 'C' {
            0x3007i32
        } else if name[13] == 'M' {
            0x3005i32
        } else if name[13] == 'O' {
            0x105i32
        } else if name[13] == 'P' {
            0x3012i32
        } else if name[13] == 'S' {
            0x300ai32
        } else if name[13] == 'W' {
            0x306ci32
        } else {
            0x4017i32
        }
    } else if name.len() == 18 {
        if name[8] == 'E' {
            0x3066i32
        } else if name[8] == 'H' {
            0xb008i32
        } else {
            0x3006i32
        }
    } else if name.len() == 19 {
        if name[18] == 'C' {
            if name[16] == 'C' {
                0x109i32
            } else {
                0x10bi32
            }
        } else if name[18] == 'D' {
            0x10di32
        } else if name[18] == 'E' {
            if name[8] == 'D' {
                0x3097i32
            } else {
                0x3064i32
            }
        } else if name[18] == 'G' {
            if name[8] == 'I' {
                0x102i32
            } else {
                0x4016i32
            }
        } else if name[18] == 'L' {
            0x3068i32
        } else if name[18] == 'M' {
            0x3035i32
        } else {
            if name[8] == 'E' {
                0x306di32
            } else {
                0x7007i32
            }
        }
    } else if name.len() == 20 {
        if name[8] == 'E' {
            0x306bi32
        } else if name[8] == 'H' {
            0x7002i32
        } else if name[8] == 'I' {
            0x104i32
        } else if name[8] == 'M' {
            if name[13] == 'D' {
                0x4015i32
            } else {
                0x400ai32
            }
        } else if name[8] == 'N' {
            0x10ci32
        } else {
            if name[13] == 'D' {
                0x301bi32
            } else {
                0x300ci32
            }
        }
    } else if name.len() == 21 {
        if name[13] == 'A' {
            if name[8] == 'M' {
                0x4008i32
            } else {
                0x110ai32
            }
        } else if name[13] == 'E' {
            0x1104i32
        } else if name[13] == 'I' {
            0x103i32
        } else if name[13] == 'N' {
            if name[8] == 'M' {
                0x4002i32
            } else {
                0x3001i32
            }
        } else if name[13] == 'O' {
            0x1102i32
        } else if name[13] == 'P' {
            0x300bi32
        } else if name[13] == 'T' {
            0x3017i32
        } else if name[13] == 'U' {
            0x106i32
        } else if name[13] == 'W' {
            if name[8] == 'E' {
                0x3067i32
            } else {
                0x3034i32
            }
        } else {
            if name[8] == 'F' {
                0x6001i32
            } else {
                0x2002i32
            }
        }
    } else if name.len() == 22 {
        if name[17] == 'A' {
            0x3015i32
        } else if name[17] == 'E' {
            0x4007i32
        } else if name[17] == 'I' {
            0x3098i32
        } else if name[17] == 'P' {
            0xb005i32
        } else if name[17] == 'R' {
            0x4013i32
        } else if name[17] == 'S' {
            if name[8] == 'M' {
                0x4004i32
            } else {
                0x3033i32
            }
        } else {
            0x300di32
        }
    } else if name.len() == 23 {
        if name[16] == 'E' {
            0x4009i32
        } else if name[16] == 'L' {
            0xb007i32
        } else if name[16] == 'N' {
            if name[8] == 'E' {
                0x306ai32
            } else {
                0x7006i32
            }
        } else if name[16] == 'O' {
            if name[8] == 'E' {
                0x3065i32
            } else {
                0x6006i32
            }
        } else if name[16] == 'P' {
            0x3014i32
        } else if name[16] == 'R' {
            0x1606i32
        } else if name[16] == 'S' {
            0xb006i32
        } else if name[16] == 'T' {
            if name[8] == 'H' {
                0x7003i32
            } else {
                0x3013i32
            }
        } else if name[16] == 'U' {
            if name[20] == 'A' {
                0x400ci32
            } else if name[20] == 'E' {
                0x4018i32
            } else {
                0x400di32
            }
        } else if name[16] == 'V' {
            0x10ai32
        } else {
            0x4003i32
        }
    } else if name.len() == 24 {
        if name[18] == 'D' {
            if name[20] == 'A' {
                0x3099i32
            } else if name[20] == 'L' {
                0x309bi32
            } else {
                0x1106i32
            }
        } else if name[18] == 'H' {
            0x2001i32
        } else if name[18] == 'I' {
            if name[12] == 'A' {
                0x309ai32
            } else if name[12] == 'C' {
                0x309ci32
            } else {
                0x6002i32
            }
        } else if name[18] == 'L' {
            0x4006i32
        } else if name[18] == 'N' {
            if name[8] == 'E' {
                0x5006i32
            } else {
                0x4010i32
            }
        } else if name[18] == 'O' {
            if name[8] == 'N' {
                0x1109i32
            } else if name[8] == 'U' {
                0x1201i32
            } else {
                0x300fi32
            }
        } else if name[18] == 'S' {
            if name[8] == 'I' {
                0x108i32
            } else {
                0x3016i32
            }
        } else if name[18] == 'T' {
            if name[19] == 'A' {
                0x3002i32
            } else {
                0x3003i32
            }
        } else if name[18] == 'U' {
            0x4005i32
        } else {
            if name[8] == 'E' {
                0x3069i32
            } else {
                0x300ei32
            }
        }
    } else if name.len() == 25 {
        if name[15] == 'A' {
            if name[8] == 'H' {
                0x700bi32
            } else {
                0x110bi32
            }
        } else if name[15] == 'C' {
            0x401ai32
        } else if name[15] == 'E' {
            0x1103i32
        } else if name[15] == 'F' {
            0x110di32
        } else if name[15] == 'L' {
            0x1504i32
        } else if name[15] == 'N' {
            if name[8] == 'E' {
                0x1602i32
            } else {
                0xb003i32
            }
        } else if name[15] == 'O' {
            0x1108i32
        } else if name[15] == 'S' {
            0x400bi32
        } else if name[15] == 'T' {
            if name[13] == 'F' {
                0x7004i32
            } else {
                0x7009i32
            }
        } else if name[15] == 'X' {
            0x7001i32
        } else {
            0x8007i32
        }
    } else if name.len() == 26 {
        if name[12] == 'D' {
            0xb004i32
        } else if name[12] == 'I' {
            if name[20] == 'H' {
                0x1107i32
            } else {
                0x110ci32
            }
        } else if name[12] == 'P' {
            0x110fi32
        } else if name[12] == 'V' {
            0x110ei32
        } else if name[12] == 'X' {
            0x1113i32
        } else {
            0x4012i32
        }
    } else if name.len() == 27 {
        if name[14] == 'D' {
            0x1204i32
        } else if name[14] == 'H' {
            0xb001i32
        } else if name[14] == 'I' {
            0x4001i32
        } else if name[14] == 'L' {
            if name[12] == 'R' {
                0x1505i32
            } else {
                0x1503i32
            }
        } else if name[14] == 'N' {
            0x1118i32
        } else if name[14] == 'O' {
            0x400fi32
        } else if name[14] == 'P' {
            if name[8] == 'M' {
                0x4011i32
            } else {
                0x1203i32
            }
        } else if name[14] == 'R' {
            0x1603i32
        } else if name[14] == 'S' {
            if name[16] == 'D' {
                0x1112i32
            } else {
                0x1111i32
            }
        } else {
            if name[8] == 'E' {
                0x500ei32
            } else {
                0x1101i32
            }
        }
    } else if name.len() == 28 {
        if name[16] == 'A' {
            0xd007i32
        } else if name[16] == 'E' {
            0x1105i32
        } else if name[16] == 'G' {
            0x1119i32
        } else if name[16] == 'N' {
            0xb002i32
        } else if name[16] == 'O' {
            0x700ci32
        } else if name[16] == 'P' {
            0x400ei32
        } else if name[16] == 'S' {
            0xe004i32
        } else if name[16] == 'U' {
            0x1117i32
        } else {
            0x301ci32
        }
    } else if name.len() == 29 {
        if name[16] == 'A' {
            0x9001i32
        } else if name[16] == 'C' {
            if name[8] == 'M' {
                0xd008i32
            } else {
                0x1114i32
            }
        } else if name[16] == 'F' {
            if name[18] == 'I' {
                0x5009i32
            } else {
                0x500bi32
            }
        } else if name[16] == 'L' {
            0x1202i32
        } else if name[16] == 'T' {
            0x6003i32
        } else if name[16] == 'V' {
            0x1110i32
        } else if name[16] == 'W' {
            0xd006i32
        } else {
            if name[23] == 'R' {
                0x301ai32
            } else {
                0x3019i32
            }
        }
    } else if name.len() == 30 {
        if name[13] == 'A' {
            0x1501i32
        } else if name[13] == 'C' {
            0x7008i32
        } else if name[13] == 'D' {
            0x4014i32
        } else if name[13] == 'E' {
            0x5002i32
        } else if name[13] == 'I' {
            0x7005i32
        } else if name[13] == 'L' {
            if name[8] == 'E' {
                0x8008i32
            } else {
                0x8010i32
            }
        } else if name[13] == 'N' {
            0x1115i32
        } else if name[13] == 'T' {
            0x3018i32
        } else if name[13] == 'Y' {
            0xc001i32
        } else {
            if name[26] == 'C' {
                0x6005i32
            } else {
                0x6004i32
            }
        }
    } else if name.len() == 31 {
        if name[8] == 'M' {
            0x801di32
        } else if name[8] == 'O' {
            0x1502i32
        } else {
            0x1205i32
        }
    } else if name.len() == 32 {
        if name[24] == 'A' {
            0xc002i32
        } else if name[24] == 'D' {
            0x5001i32
        } else if name[24] == 'E' {
            0x8018i32
        } else if name[24] == 'P' {
            0x8017i32
        } else {
            0x1116i32
        }
    } else if name.len() == 33 {
        0x500ci32
    } else if name.len() == 34 {
        if name[16] == 'B' {
            0x1506i32
        } else if name[16] == 'C' {
            0x8006i32
        } else if name[16] == 'F' {
            0x5007i32
        } else if name[16] == 'G' {
            0x700ai32
        } else if name[16] == 'H' {
            0xf001i32
        } else {
            0xd002i32
        }
    } else if name.len() == 35 {
        if name[16] == 'M' {
            0xd001i32
        } else if name[16] == 'O' {
            0xc004i32
        } else if name[16] == 'P' {
            0x8019i32
        } else {
            0x801bi32
        }
    } else if name.len() == 36 {
        if name[20] == 'C' {
            if name[22] == 'C' {
                0x5003i32
            } else {
                0x500di32
            }
        } else if name[20] == 'D' {
            0x8011i32
        } else if name[20] == 'E' {
            0x8005i32
        } else if name[20] == 'H' {
            0x801ai32
        } else if name[20] == 'N' {
            0x1605i32
        } else if name[20] == 'O' {
            0x8002i32
        } else if name[20] == 'S' {
            0x500ai32
        } else if name[20] == 'T' {
            0xd004i32
        } else {
            0xc005i32
        }
    } else if name.len() == 37 {
        if name[9] == 'B' {
            0x8015i32
        } else {
            0xd005i32
        }
    } else if name.len() == 38 {
        if name[34] == 'H' {
            0x8004i32
        } else if name[34] == 'I' {
            0x5008i32
        } else if name[34] == 'P' {
            0x5005i32
        } else {
            0x5004i32
        }
    } else if name.len() == 39 {
        if name[23] == 'D' {
            0xd003i32
        } else if name[23] == 'K' {
            0x801ci32
        } else if name[23] == 'O' {
            0xe003i32
        } else if name[23] == 'R' {
            0x8001i32
        } else {
            0x8012i32
        }
    } else if name.len() == 40 {
        if name[8] == 'E' {
            0x8009i32
        } else if name[8] == 'M' {
            0x8016i32
        } else {
            0xe001i32
        }
    } else if name.len() == 41 {
        0xf002i32
    } else if name.len() == 42 {
        if name[21] == 'K' {
            0xf003i32
        } else if name[21] == 'O' {
            0x8013i32
        } else {
            0xf004i32
        }
    } else if name.len() == 43 {
        0x8003i32
    } else {
        if name[8] == 'M' {
            0x8014i32
        } else {
            0xe002i32
        }
    }
}

/// `info` is `name` in brackets, a colon and a space, followed by a non-empty text.
pub open spec fn begins_with_bracketed_name(info: Seq<char>, name: Seq<char>) -> bool {
    &&& info.len() > name.len() + 4
    &&& info.subrange(0, name.len() + 4int) == seq!['['] + name + seq![']', ':', ' ']
}

/// What the table states of one code: it has a description exactly where it has a
/// name, the description begins with the bracketed name, and a known code is listed.
spec fn table_facts(code: i32) -> bool {
    &&& (spec_error_info(code) is Some) == is_error_code(code)
    &&& is_error_code(code) ==> begins_with_bracketed_name(
        spec_error_info(code).unwrap(),
        spec_error_name(code).unwrap(),
    )
    &&& is_error_code(code) ==> ESP_IDF_ERROR_CODES@.contains(code)
    &&& is_error_code(code) ==> code_named(spec_error_name(code).unwrap()) == code
    &&& is_error_code(code) ==> is_error_name_shape(spec_error_name(code).unwrap())
    &&& is_error_code(code) && code != -1 && code != 0x1601 ==> spec_error_name(code).unwrap().subrange(0, 8)
        == seq!['E', 'S', 'P', '_', 'E', 'R', 'R', '_']
}

/// The table facts for every code from `i32::MIN` to `0x1102`.
proof fn lemma_table_codes_0(code: i32)
    requires
        i32::MIN <= code <= 0x1102,
    ensures
        table_facts(code),
{
    if code == -1 {
        reveal_strlit("ESP_FAIL");
        reveal_strlit("[ESP_FAIL]: Generic esp_err_t code indicating failure");
        assert(spec_error_info(code).unwrap().subrange(0, spec_error_name(code).unwrap().len() + 4int)
            =~= seq!['['] + spec_error_name(code).unwrap() + seq![']', ':', ' ']);
        assert(ESP_IDF_ERROR_CODES@[0] == code);
        let name = spec_error_name(code).unwrap();
        assert(name.subrange(0, 4) =~= seq!['E', 'S', 'P', '_']);
        assert forall|j: int| 0 <= j < name.len() implies is_name_char(#[trigger] name[j]) by {
            if j == 0 {
            } else if j == 1 {
            } else if j == 2 {
            } else if j == 3 {
            } else if j == 4 {
            } else if j == 5 {
            } else if j == 6 {
            } else if j == 7 {
            }
        }
    } else if code == 0x101 {
        reveal_strlit("ESP_ERR_NO_MEM");
        reveal_strlit("[ESP_ERR_NO_MEM]: Out of memory");
        assert(spec_error_info(code).unwrap().subrange(0, spec_error_name(code).unwrap().len() + 4int)
            =~= seq!['['] + spec_error_name(code).unwrap() + seq![']', ':', ' ']);
        assert(ESP_IDF_ERROR_CODES@[1] == code);
        let name = spec_error_name(code).unwrap();
        assert(name.subrange(0, 4) =~= seq!['E', 'S', 'P', '_']);
        assert(name.subrange(0, 8) =~= seq!['E', 'S', 'P', '_', 'E', 'R', 'R', '_']);
        assert forall|j: int| 0 <= j < name.len() implies is_name_char(#[trigger] name[j]) by {
            if j == 0 {
            } else if j == 1 {
            } else if j == 2 {
            } else if j == 3 {
            } else if j == 4 {
            } else if j == 5 {
            } else if j == 6 {
            } else if j == 7 {
            } else if j == 8 {
            } else if j == 9 {
            } else if j == 10 {
            } else if j == 11 {
            } else if j == 12 {
            } else if j == 13 {
            }
        }
    } else if code == 0x102 {
        reveal_strlit("ESP_ERR_INVALID_ARG");
        reveal_strlit("[ESP_ERR_INVALID_ARG]: Invalid argument");
        assert(spec_error_info(code).unwrap().subrange(0, spec_error_name(code).unwrap().len() + 4int)
            =~= seq!['['] + spec_error_name(code).unwrap() + seq![']', ':', ' ']);
        assert(ESP_IDF_ERROR_CODES@[2] == code);
        let name = spec_error_name(code).unwrap();
        assert(name.subrange(0, 4) =~= seq!['E', 'S', 'P', '_']);
        assert(name.subrange(0, 8) =~= seq!['E', 'S', 'P', '_', 'E', 'R', 'R', '_']);
        assert forall|j: int| 0 <= j < name.len() implies is_name_char(#[trigger] name[j]) by {
            if j == 0 {
            } else if j == 1 {
            } else if j == 2 {
            } else if j == 3 {
            } else if j == 4 {
            } else if j == 5 {
            } else if j == 6 {
            } else if j == 7 {
            } else if j == 8 {
            } else if j == 9 {
            } else if j == 10 {
            } else if j == 11 {
            } else if j == 12 {
            } else if j == 13 {
            } else if j == 14 {
            } else if j == 15 {
            } else if j == 16 {
            } else if j == 17 {
            } else if j == 18 {
            }
        }
    } else if code == 0x103 {
        reveal_strlit("ESP_ERR_INVALID_STATE");
        reveal_strlit("[ESP_ERR_INVALID_STATE]: Invalid state");
        assert(spec_error_info(code).unwrap().subrange(0, spec_error_name(code).unwrap().len() + 4int)
            =~= seq!['['] + spec_error_name(code).unwrap() + seq![']', ':', ' ']);
        assert(ESP_IDF_ERROR_CODES@[3] == code);
        let name = spec_error_name(code).unwrap();
        assert(name.subrange(0, 4) =~= seq!['E', 'S', 'P', '_']);
        assert(name.subrange(0, 8) =~= seq!['E', 'S', 'P', '_', 'E', 'R', 'R', '_']);
        assert forall|j: int| 0 <= j < name.len() implies is_name_char(#[trigger] name[j]) by {
            if j == 0 {
            } else if j == 1 {
            } else if j == 2 {
            } else if j == 3 {
            } else if j == 4 {
            } else if j == 5 {
            } else if j == 6 {
            } else if j == 7 {
            } else if j == 8 {
            } else if j == 9 {
            } else if j == 10 {
            } else if j == 11 {
            } else if j == 12 {
            } else if j == 13 {
            } else if j == 14 {
            } else if j == 15 {
            } else if j == 16 {
            } else if j == 17 {
            } else if j == 18 {
            } else if j == 19 {
            } else if j == 20 {
            }
        }
    } else if code == 0x104 {
        reveal_strlit("ESP_ERR_INVALID_SIZE");
        reveal_strlit("[ESP_ERR_INVALID_SIZE]: Invalid size");
        assert(spec_error_info(code).unwrap().subrange(0, spec_error_name(code).unwrap().len() + 4int)
            =~= seq!['['] + spec_error_name(code).unwrap() + seq![']', ':', ' ']);
        assert(ESP_IDF_ERROR_CODES@[4] == code);
        let name = spec_error_name(code).unwrap();
        assert(name.subrange(0, 4) =~= seq!['E', 'S', 'P', '_']);
        assert(name.subrange(0, 8) =~= seq!['E', 'S', 'P', '_', 'E', 'R', 'R', '_']);
        assert forall|j: int| 0 <= j < name.len() implies is_name_char(#[trigger] name[j]) by {
            if j == 0 {
            } else if j == 1 {
            } else if j == 2 {
            } else if j == 3 {
            } else if j == 4 {
            } else if j == 5 {
            } else if j == 6 {
            } else if j == 7 {
            } else if j == 8 {
            } else if j == 9 {
            } else if j == 10 {
            } else if j == 11 {
            } else if j == 12 {
            } else if j == 13 {
            } else if j == 14 {
            } else if j == 15 {
            } else if j == 16 {
            } else if j == 17 {
            } else if j == 18 {
            } else if j == 19 {
            }
        }
    } else if code == 0x105 {
        reveal_strlit("ESP_ERR_NOT_FOUND");
        reveal_strlit("[ESP_ERR_NOT_FOUND]: Requested resource not found");
        assert(spec_error_info(code).unwrap().subrange(0, spec_error_name(code).unwrap().len() + 4int)
            =~= seq!['['] + spec_error_name(code).unwrap() + seq![']', ':', ' ']);
        assert(ESP_IDF_ERROR_CODES@[5] == code);
        let name = spec_error_name(code).unwrap();
        assert(name.subrange(0, 4) =~= seq!['E', 'S', 'P', '_']);
        assert(name.subrange(0, 8) =~= seq!['E', 'S', 'P', '_', 'E', 'R', 'R', '_']);
        assert forall|j: int| 0 <= j < name.len() implies is_name_char(#[trigger] name[j]) by {
            if j == 0 {
            } else if j == 1 {
            } else if j == 2 {
            } else if j == 3 {
            } else if j == 4 {
            } else if j == 5 {
            } else if j == 6 {
            } else if j == 7 {
            } else if j == 8 {
            } else if j == 9 {
            } else if j == 10 {
            } else if j == 11 {
            } else if j == 12 {
            } else if j == 13 {
            } else if j == 14 {
            } else if j == 15 {
            } else if j == 16 {
            }
        }
    } else if code == 0x106 {
        reveal_strlit("ESP_ERR_NOT_SUPPORTED");
        reveal_strlit("[ESP_ERR_NOT_SUPPORTED]: Operation or feature not supported");
        assert(spec_error_info(code).unwrap().subrange(0, spec_error_name(code).unwrap().len() + 4int)
            =~= seq!['['] + spec_error_name(code).unwrap() + seq![']', ':', ' ']);
        assert(ESP_IDF_ERROR_CODES@[6] == code);
        let name = spec_error_name(code).unwrap();
        assert(name.subrange(0, 4) =~= seq!['E', 'S', 'P', '_']);
        assert(name.subrange(0, 8) =~= seq!['E', 'S', 'P', '_', 'E', 'R', 'R', '_']);
        assert forall|j: int| 0 <= j < name.len() implies is_name_char(#[trigger] name[j]) by {
            if j == 0 {
            } else if j == 1 {
            } else if j == 2 {
            } else if j == 3 {
            } else if j == 4 {
            } else if j == 5 {
            } else if j == 6 {
            } else if j == 7 {
            } else if j == 8 {
            } else if j == 9 {
            } else if j == 10 {
            } else if j == 11 {
            } else if j == 12 {
            } else if j == 13 {
            } else if j == 14 {
            } else if j == 15 {
            } else if j == 16 {
            } else if j == 17 {
            } else if j == 18 {
            } else if j == 19 {
            } else if j == 20 {
            }
        }
    } else if code == 0x107 {
        reveal_strlit("ESP_ERR_TIMEOUT");
        reveal_strlit("[ESP_ERR_TIMEOUT]: Operation timed out");
        assert(spec_error_info(code).unwrap().subrange(0, spec_error_name(code).unwrap().len() + 4int)
            =~= seq!['['] + spec_error_name(code).unwrap() + seq![']', ':', ' ']);
        assert(ESP_IDF_ERROR_CODES@[7] == code);
        let name = spec_error_name(code).unwrap();
        assert(name.subrange(0, 4) =~= seq!['E', 'S', 'P', '_']);
        assert(name.subrange(0, 8) =~= seq!['E', 'S', 'P', '_', 'E', 'R', 'R', '_']);
        assert forall|j: int| 0 <= j < name.len() implies is_name_char(#[trigger] name[j]) by {
            if j == 0 {
            } else if j == 1 {
            } else if j == 2 {
            } else if j == 3 {
            } else if j == 4 {
            } else if j == 5 {
            } else if j == 6 {
            } else if j == 7 {
            } else if j == 8 {
            } else if j == 9 {
            } else if j == 10 {
            } else if j == 11 {
            } else if j == 12 {
            } else if j == 13 {
            } else if j == 14 {
            }
        }
    } else if code == 0x108 {
        reveal_strlit("ESP_ERR_INVALID_RESPONSE");
        reveal_strlit("[ESP_ERR_INVALID_RESPONSE]: Received response was invalid");
        assert(spec_error_info(code).unwrap().subrange(0, spec_error_name(code).unwrap().len() + 4int)
            =~= seq!['['] + spec_error_name(code).unwrap() + seq![']', ':', ' ']);
        assert(ESP_IDF_ERROR_CODES@[8] == code);
        let name = spec_error_name(code).unwrap();
        assert(name.subrange(0, 4) =~= seq!['E', 'S', 'P', '_']);
        assert(name.subrange(0, 8) =~= seq!['E', 'S', 'P', '_', 'E', 'R', 'R', '_']);
        assert forall|j: int| 0 <= j < name.len() implies is_name_char(#[trigger] name[j]) by {
            if j == 0 {
            } else if j == 1 {
            } else if j == 2 {
            } else if j == 3 {
            } else if j == 4 {
            } else if j == 5 {
            } else if j == 6 {
            } else if j == 7 {
            } else if j == 8 {
            } else if j == 9 {
            } else if j == 10 {
            } else if j == 11 {
            } else if j == 12 {
            } else if j == 13 {
            } else if j == 14 {
            } else if j == 15 {
            } else if j == 16 {
            } else if j == 17 {
            } else if j == 18 {
            } else if j == 19 {
            } else if j == 20 {
            } else if j == 21 {
            } else if j == 22 {
            } else if j == 23 {
            }
        }
    } else if code == 0x109 {
        reveal_strlit("ESP_ERR_INVALID_CRC");
        reveal_strlit("[ESP_ERR_INVALID_CRC]: CRC or checksum was invalid");
        assert(spec_error_info(code).unwrap().subrange(0, spec_error_name(code).unwrap().len() + 4int)
            =~= seq!['['] + spec_error_name(code).unwrap() + seq![']', ':', ' ']);
        assert(ESP_IDF_ERROR_CODES@[9] == code);
        let name = spec_error_name(code).unwrap();
        assert(name.subrange(0, 4) =~= seq!['E', 'S', 'P', '_']);
        assert(name.subrange(0, 8) =~= seq!['E', 'S', 'P', '_', 'E', 'R', 'R', '_']);
        assert forall|j: int| 0 <= j < name.len() implies is_name_char(#[trigger] name[j]) by {
            if j == 0 {
            } else if j == 1 {
            } else if j == 2 {
            } else if j == 3 {
            } else if j == 4 {
            } else if j == 5 {
            } else if j == 6 {
            } else if j == 7 {
            } else if j == 8 {
            } else if j == 9 {
            } else if j == 10 {
            } else if j == 11 {
            } else if j == 12 {
            } else if j == 13 {
            } else if j == 14 {
            } else if j == 15 {
            } else if j == 16 {
            } else if j == 17 {
            } else if j == 18 {
            }
        }
    } else if code == 0x10a {
        reveal_strlit("ESP_ERR_INVALID_VERSION");
        reveal_strlit("[ESP_ERR_INVALID_VERSION]: Version was invalid");
        assert(spec_error_info(code).unwrap().subrange(0, spec_error_name(code).unwrap().len() + 4int)
            =~= seq!['['] + spec_error_name(code).unwrap() + seq![']', ':', ' ']);
        assert(ESP_IDF_ERROR_CODES@[10] == code);
        let name = spec_error_name(code).unwrap();
        assert(name.subrange(0, 4) =~= seq!['E', 'S', 'P', '_']);
        assert(name.subrange(0, 8) =~= seq!['E', 'S', 'P', '_', 'E', 'R', 'R', '_']);
        assert forall|j: int| 0 <= j < name.len() implies is_name_char(#[trigger] name[j]) by {
            if j == 0 {
            } else if j == 1 {
            } else if j == 2 {
            } else if j == 3 {
            } else if j == 4 {
            } else if j == 5 {
            } else if j == 6 {
            } else if j == 7 {
            } else if j == 8 {
            } else if j == 9 {
            } else if j == 10 {
            } else if j == 11 {
            } else if j == 12 {
            } else if j == 13 {
            } else if j == 14 {
            } else if j == 15 {
            } else if j == 16 {
            } else if j == 17 {
            } else if j == 18 {
            } else if j == 19 {
            } else if j == 20 {
            } else if j == 21 {
            } else if j == 22 {
            }
        }
    } else if code == 0x10b {
        reveal_strlit("ESP_ERR_INVALID_MAC");
        reveal_strlit("[ESP_ERR_INVALID_MAC]: MAC address was invalid");
        assert(spec_error_info(code).unwrap().subrange(0, spec_error_name(code).unwrap().len() + 4int)
            =~= seq!['['] + spec_error_name(code).unwrap() + seq![']', ':', ' ']);
        assert(ESP_IDF_ERROR_CODES@[11] == code);
        let name = spec_error_name(code).unwrap();
        assert(name.subrange(0, 4) =~= seq!['E', 'S', 'P', '_']);
        assert(name.subrange(0, 8) =~= seq!['E', 'S', 'P', '_', 'E', 'R', 'R', '_']);
        assert forall|j: int| 0 <= j < name.len() implies is_name_char(#[trigger] name[j]) by {
            if j == 0 {
            } else if j == 1 {
            } else if j == 2 {
            } else if j == 3 {
            } else if j == 4 {
            } else if j == 5 {
            } else if j == 6 {
            } else if j == 7 {
            } else if j == 8 {
            } else if j == 9 {
            } else if j == 10 {
            } else if j == 11 {
            } else if j == 12 {
            } else if j == 13 {
            } else if j == 14 {
            } else if j == 15 {
            } else if j == 16 {
            } else if j == 17 {
            } else if j == 18 {
            }
        }
    } else if code == 0x10c {
        reveal_strlit("ESP_ERR_NOT_FINISHED");
        reveal_strlit("[ESP_ERR_NOT_FINISHED]: Operation has not fully completed");
        assert(spec_error_info(code).unwrap().subrange(0, spec_error_name(code).unwrap().len() + 4int)
            =~= seq!['['] + spec_error_name(code).unwrap() + seq![']', ':', ' ']);
        assert(ESP_IDF_ERROR_CODES@[12] == code);
        let name = spec_error_name(code).unwrap();
        assert(name.subrange(0, 4) =~= seq!['E', 'S', 'P', '_']);
        assert(name.subrange(0, 8) =~= seq!['E', 'S', 'P', '_', 'E', 'R', 'R', '_']);
        assert forall|j: int| 0 <= j < name.len() implies is_name_char(#[trigger] name[j]) by {
            if j == 0 {
            } else if j == 1 {
            } else if j == 2 {
            } else if j == 3 {
            } else if j == 4 {
            } else if j == 5 {
            } else if j == 6 {
            } else if j == 7 {
            } else if j == 8 {
            } else if j == 9 {
            } else if j == 10 {
            } else if j == 11 {
            } else if j == 12 {
            } else if j == 13 {
            } else if j == 14 {
            } else if j == 15 {
            } else if j == 16 {
            } else if j == 17 {
            } else if j == 18 {
            } else if j == 19 {
            }
        }
    } else if code == 0x10d {
        reveal_strlit("ESP_ERR_NOT_ALLOWED");
        reveal_strlit("[ESP_ERR_NOT_ALLOWED]: Operation is not allowed");
        assert(spec_error_info(code).unwrap().subrange(0, spec_error_name(code).unwrap().len() + 4int)
            =~= seq!['['] + spec_error_name(code).unwrap() + seq![']', ':', ' ']);
        assert(ESP_IDF_ERROR_CODES@[13] == code);
        let name = spec_error_name(code).unwrap();
        assert(name.subrange(0, 4) =~= seq!['E', 'S', 'P', '_']);
        assert(name.subrange(0, 8) =~= seq!['E', 'S', 'P', '_', 'E', 'R', 'R', '_']);
        assert forall|j: int| 0 <= j < name.len() implies is_name_char(#[trigger] name[j]) by {
            if j == 0 {
            } else if j == 1 {
            } else if j == 2 {
            } else if j == 3 {
            } else if j == 4 {
            } else if j == 5 {
            } else if j == 6 {
            } else if j == 7 {
            } else if j == 8 {
            } else if j == 9 {
            } else if j == 10 {
            } else if j == 11 {
            } else if j == 12 {
            } else if j == 13 {
            } else if j == 14 {
            } else if j == 15 {
            } else if j == 16 {
            } else if j == 17 {
            } else if j == 18 {
            }
        }
    } else if code == 0x1101 {
        reveal_strlit("ESP_ERR_NVS_NOT_INITIALIZED");
        reveal_strlit("[ESP_ERR_NVS_NOT_INITIALIZED]: The storage driver is not initialized");
        assert(spec_error_info(code).unwrap().subrange(0, spec_error_name(code).unwrap().len() + 4int)
            =~= seq!['['] + spec_error_name(code).unwrap() + seq![']', ':', ' ']);
        assert(ESP_IDF_ERROR_CODES@[14] == code);
        let name = spec_error_name(code).unwrap();
        assert(name.subrange(0, 4) =~= seq!['E', 'S', 'P', '_']);
        assert(name.subrange(0, 8) =~= seq!['E', 'S', 'P', '_', 'E', 'R', 'R', '_']);
        assert forall|j: int| 0 <= j < name.len() implies is_name_char(#[trigger] name[j]) by {
            if j == 0 {
            } else if j == 1 {
            } else if j == 2 {
            } else if j == 3 {
            } else if j == 4 {
            } else if j == 5 {
            } else if j == 6 {
            } else if j == 7 {
            } else if j == 8 {
            } else if j == 9 {
            } else if j == 10 {
            } else if j == 11 {
            } else if j == 12 {
            } else if j == 13 {
            } else if j == 14 {
            } else if j == 15 {
            } else if j == 16 {
            } else if j == 17 {
            } else if j == 18 {
            } else if j == 19 {
            } else if j == 20 {
            } else if j == 21 {
            } else if j == 22 {
            } else if j == 23 {
            } else if j == 24 {
            } else if j == 25 {
            } else if j == 26 {
            }
        }
    } else if code == 0x1102 {
        reveal_strlit("ESP_ERR_NVS_NOT_FOUND");
        reveal_strlit("[ESP_ERR_NVS_NOT_FOUND]: A requested entry couldn't be found or namespace doesn’t exist yet and mode is NVS_READONLY");
        assert(spec_error_info(code).unwrap().subrange(0, spec_error_name(code).unwrap().len() + 4int)
            =~= seq!['['] + spec_error_name(code).unwrap() + seq![']', ':', ' ']);
        assert(ESP_IDF_ERROR_CODES@[15] == code);
        let name = spec_error_name(code).unwrap();
        assert(name.subrange(0, 4) =~= seq!['E', 'S', 'P', '_']);
        assert(name.subrange(0, 8) =~= seq!['E', 'S', 'P', '_', 'E', 'R', 'R', '_']);
        assert forall|j: int| 0 <= j < name.len() implies is_name_char(#[trigger] name[j]) by {
            if j == 0 {
            } else if j == 1 {
            } else if j == 2 {
            } else if j == 3 {
            } else if j == 4 {
            } else if j == 5 {
            } else if j == 6 {
            } else if j == 7 {
            } else if j == 8 {
            } else if j == 9 {
            } else if j == 10 {
            } else if j == 11 {
            } else if j == 12 {
            } else if j == 13 {
            } else if j == 14 {
            } else if j == 15 {
            } else if j == 16 {
            } else if j == 17 {
            } else if j == 18 {
            } else if j == 19 {
            } else if j == 20 {
            }
        }
    }
}

/// Entries 0 to 15 of `ESP_IDF_ERROR_CODES` are known codes, each below the next.
proof fn lemma_table_indices_0(i: int)
    requires
        0 <= i < 16,
    ensures
        is_error_code(ESP_IDF_ERROR_CODES@[i]),
        ESP_IDF_ERROR_CODES@[i] < ESP_IDF_ERROR_CODES@[i + 1],
{
    if i == 0 {
        assert(ESP_IDF_ERROR_CODES@[i] == -1);
        assert(ESP_IDF_ERROR_CODES@[i + 1] == 0x101);
    } else if i == 1 {
        assert(ESP_IDF_ERROR_CODES@[i] == 0x101);
        assert(ESP_IDF_ERROR_CODES@[i + 1] == 0x102);
    } else if i == 2 {
        assert(ESP_IDF_ERROR_CODES@[i] == 0x102);
        assert(ESP_IDF_ERROR_CODES@[i + 1] == 0x103);
    } else if i == 3 {
        assert(ESP_IDF_ERROR_CODES@[i] == 0x103);
        assert(ESP_IDF_ERROR_CODES@[i + 1] == 0x104);
    } else if i == 4 {
        assert(ESP_IDF_ERROR_CODES@[i] == 0x104);
        assert(ESP_IDF_ERROR_CODES@[i + 1] == 0x105);
    } else if i == 5 {
        assert(ESP_IDF_ERROR_CODES@[i] == 0x105);
        assert(ESP_IDF_ERROR_CODES@[i + 1] == 0x106);
    } else if i == 6 {
        assert(ESP_IDF_ERROR_CODES@[i] == 0x106);
        assert(ESP_IDF_ERROR_CODES@[i + 1] == 0x107);
    } else if i == 7 {
        assert(ESP_IDF_ERROR_CODES@[i] == 0x107);
        assert(ESP_IDF_ERROR_CODES@[i + 1] == 0x108);
    } else if i == 8 {
        assert(ESP_IDF_ERROR_CODES@[i] == 0x108);
        assert(ESP_IDF_ERROR_CODES@[i + 1] == 0x109);
    } else if i == 9 {
        assert(ESP_IDF_ERROR_CODES@[i] == 0x109);
        assert(ESP_IDF_ERROR_CODES@[i + 1] == 0x10a);
    } else if i == 10 {
        assert(ESP_IDF_ERROR_CODES@[i] == 0x10a);
        assert(ESP_IDF_ERROR_CODES@[i + 1] == 0x10b);
    } else if i == 11 {
        assert(ESP_IDF_ERROR_CODES@[i] == 0x10b);
        assert(ESP_IDF_ERROR_CODES@[i + 1] == 0x10c);
    } else if i == 12 {
        assert(ESP_IDF_ERROR_CODES@[i] == 0x10c);
        assert(ESP_IDF_ERROR_CODES@[i + 1] == 0x10d);
    } else if i == 13 {
        assert(ESP_IDF_ERROR_CODES@[i] == 0x10d);
        assert(ESP_IDF_ERROR_CODES@[i + 1] == 0x1101);
    } else if i == 14 {
        assert(ESP_IDF_ERROR_CODES@[i] == 0x1101);
        assert(ESP_IDF_ERROR_CODES@[i + 1] == 0x1102);
    } else if i == 15 {
        assert(ESP_IDF_ERROR_CODES@[i] == 0x1102);
        assert(ESP_IDF_ERROR_CODES@[i + 1] == 0x1103);
    }
}

/// The table facts for every code from `0x1103` to `0x1112`.
proof fn lemma_table_codes_1(code: i32)
    requires
        0x1103 <= code <= 0x1112,
    ensures
        table_facts(code),
{
    if code == 0x1103 {
        reveal_strlit("ESP_ERR_NVS_TYPE_MISMATCH");
        reveal_strlit("[ESP_ERR_NVS_TYPE_MISMATCH]: The type of set or get operation doesn't match the type of value stored in NVS");
        assert(spec_error_info(code).unwrap().subrange(0, spec_error_name(code).unwrap().len() + 4int)
            =~= seq!['['] + spec_error_name(code).unwrap() + seq![']', ':', ' ']);
        assert(ESP_IDF_ERROR_CODES@[16] == code);
        let name = spec_error_name(code).unwrap();
        assert(name.subrange(0, 4) =~= seq!['E', 'S', 'P', '_']);
        assert(name.subrange(0, 8) =~= seq!['E', 'S', 'P', '_', 'E', 'R', 'R', '_']);
        assert forall|j: int| 0 <= j < name.len() implies is_name_char(#[trigger] name[j]) by {
            if j == 0 {
            } else if j == 1 {
            } else if j == 2 {
            } else if j == 3 {
            } else if j == 4 {
            } else if j == 5 {
            } else if j == 6 {
            } else if j == 7 {
            } else if j == 8 {
            } else if j == 9 {
            } else if j == 10 {
            } else if j == 11 {
            } else if j == 12 {
            } else if j == 13 {
            } else if j == 14 {
            } else if j == 15 {
            } else if j == 16 {
            } else if j == 17 {
            } else if j == 18 {
            } else if j == 19 {
            } else if j == 20 {
            } else if j == 21 {
            } else if j == 22 {
            } else if j == 23 {
            } else if j == 24 {
            }
        }
    } else if code == 0x1104 {
        reveal_strlit("ESP_ERR_NVS_READ_ONLY");
        reveal_strlit("[ESP_ERR_NVS_READ_ONLY]: Storage handle was opened as read only");
        assert(spec_error_info(code).unwrap().subrange(0, spec_error_name(code).unwrap().len() + 4int)
            =~= seq!['['] + spec_error_name(code).unwrap() + seq![']', ':', ' ']);
        assert(ESP_IDF_ERROR_CODES@[17] == code);
        let name = spec_error_name(code).unwrap();
        assert(name.subrange(0, 4) =~= seq!['E', 'S', 'P', '_']);
        assert(name.subrange(0, 8) =~= seq!['E', 'S', 'P', '_', 'E', 'R', 'R', '_']);
        assert forall|j: int| 0 <= j < name.len() implies is_name_char(#[trigger] name[j]) by {
            if j == 0 {
            } else if j == 1 {
            } else if j == 2 {
            } else if j == 3 {
            } else if j == 4 {
            } else if j == 5 {
            } else if j == 6 {
            } else if j == 7 {
            } else if j == 8 {
            } else if j == 9 {
            } else if j == 10 {
            } else if j == 11 {
            } else if j == 12 {
            } else if j == 13 {
            } else if j == 14 {
            } else if j == 15 {
            } else if j == 16 {
            } else if j == 17 {
            } else if j == 18 {
            } else if j == 19 {
            } else if j == 20 {
            }
        }
    } else if code == 0x1105 {
        reveal_strlit("ESP_ERR_NVS_NOT_ENOUGH_SPACE");
        reveal_strlit("[ESP_ERR_NVS_NOT_ENOUGH_SPACE]: There is not enough space in the underlying storage to save the value");
        assert(spec_error_info(code).unwrap().subrange(0, spec_error_name(code).unwrap().len() + 4int)
            =~= seq!['['] + spec_error_name(code).unwrap() + seq![']', ':', ' ']);
        assert(ESP_IDF_ERROR_CODES@[18] == code);
        let name = spec_error_name(code).unwrap();
        assert(name.subrange(0, 4) =~= seq!['E', 'S', 'P', '_']);
        assert(name.subrange(0, 8) =~= seq!['E', 'S', 'P', '_', 'E', 'R', 'R', '_']);
        assert forall|j: int| 0 <= j < name.len() implies is_name_char(#[trigger] name[j]) by {
            if j == 0 {
            } else if j == 1 {
            } else if j == 2 {
            } else if j == 3 {
            } else if j == 4 {
            } else if j == 5 {
            } else if j == 6 {
            } else if j == 7 {
            } else if j == 8 {
            } else if j == 9 {
            } else if j == 10 {
            } else if j == 11 {
            } else if j == 12 {
            } else if j == 13 {
            } else if j == 14 {
            } else if j == 15 {
            } else if j == 16 {
            } else if j == 17 {
            } else if j == 18 {
            } else if j == 19 {
            } else if j == 20 {
            } else if j == 21 {
            } else if j == 22 {
            } else if j == 23 {
            } else if j == 24 {
            } else if j == 25 {
            } else if j == 26 {
            } else if j == 27 {
            }
        }
    } else if code == 0x1106 {
        reveal_strlit("ESP_ERR_NVS_INVALID_NAME");
        reveal_strlit("[ESP_ERR_NVS_INVALID_NAME]: Namespace name doesn’t satisfy constraints");
        assert(spec_error_info(code).unwrap().subrange(0, spec_error_name(code).unwrap().len() + 4int)
            =~= seq!['['] + spec_error_name(code).unwrap() + seq![']', ':', ' ']);
        assert(ESP_IDF_ERROR_CODES@[19] == code);
        let name = spec_error_name(code).unwrap();
        assert(name.subrange(0, 4) =~= seq!['E', 'S', 'P', '_']);
        assert(name.subrange(0, 8) =~= seq!['E', 'S', 'P', '_', 'E', 'R', 'R', '_']);
        assert forall|j: int| 0 <= j < name.len() implies is_name_char(#[trigger] name[j]) by {
            if j == 0 {
            } else if j == 1 {
            } else if j == 2 {
            } else if j == 3 {
            } else if j == 4 {
            } else if j == 5 {
            } else if j == 6 {
            } else if j == 7 {
            } else if j == 8 {
            } else if j == 9 {
            } else if j == 10 {
            } else if j == 11 {
            } else if j == 12 {
            } else if j == 13 {
            } else if j == 14 {
            } else if j == 15 {
            } else if j == 16 {
            } else if j == 17 {
            } else if j == 18 {
            } else if j == 19 {
            } else if j == 20 {
            } else if j == 21 {
            } else if j == 22 {
            } else if j == 23 {
            }
        }
    } else if code == 0x1107 {
        reveal_strlit("ESP_ERR_NVS_INVALID_HANDLE");
        reveal_strlit("[ESP_ERR_NVS_INVALID_HANDLE]: Handle has been closed or is NULL");
        assert(spec_error_info(code).unwrap().subrange(0, spec_error_name(code).unwrap().len() + 4int)
            =~= seq!['['] + spec_error_name(code).unwrap() + seq![']', ':', ' ']);
        assert(ESP_IDF_ERROR_CODES@[20] == code);
        let name = spec_error_name(code).unwrap();
        assert(name.subrange(0, 4) =~= seq!['E', 'S', 'P', '_']);
        assert(name.subrange(0, 8) =~= seq!['E', 'S', 'P', '_', 'E', 'R', 'R', '_']);
        assert forall|j: int| 0 <= j < name.len() implies is_name_char(#[trigger] name[j]) by {
            if j == 0 {
            } else if j == 1 {
            } else if j == 2 {
            } else if j == 3 {
            } else if j == 4 {
            } else if j == 5 {
            } else if j == 6 {
            } else if j == 7 {
            } else if j == 8 {
            } else if j == 9 {
            } else if j == 10 {
            } else if j == 11 {
            } else if j == 12 {
            } else if j == 13 {
            } else if j == 14 {
            } else if j == 15 {
            } else if j == 16 {
            } else if j == 17 {
            } else if j == 18 {
            } else if j == 19 {
            } else if j == 20 {
            } else if j == 21 {
            } else if j == 22 {
            } else if j == 23 {
            } else if j == 24 {
            } else if j == 25 {
            }
        }
    } else if code == 0x1108 {
        reveal_strlit("ESP_ERR_NVS_REMOVE_FAILED");
        reveal_strlit("[ESP_ERR_NVS_REMOVE_FAILED]: The value wasn’t updated because flash write operation has failed. The value was written however, and update will be finished after re-initialization of nvs, provided that flash operation doesn’t fail again.");
        assert(spec_error_info(code).unwrap().subrange(0, spec_error_name(code).unwrap().len() + 4int)
            =~= seq!['['] + spec_error_name(code).unwrap() + seq![']', ':', ' ']);
        assert(ESP_IDF_ERROR_CODES@[21] == code);
        let name = spec_error_name(code).unwrap();
        assert(name.subrange(0, 4) =~= seq!['E', 'S', 'P', '_']);
        assert(name.subrange(0, 8) =~= seq!['E', 'S', 'P', '_', 'E', 'R', 'R', '_']);
        assert forall|j: int| 0 <= j < name.len() implies is_name_char(#[trigger] name[j]) by {
            if j == 0 {
            } else if j == 1 {
            } else if j == 2 {
            } else if j == 3 {
            } else if j == 4 {
            } else if j == 5 {
            } else if j == 6 {
            } else if j == 7 {
            } else if j == 8 {
            } else if j == 9 {
            } else if j == 10 {
            } else if j == 11 {
            } else if j == 12 {
            } else if j == 13 {
            } else if j == 14 {
            } else if j == 15 {
            } else if j == 16 {
            } else if j == 17 {
            } else if j == 18 {
            } else if j == 19 {
            } else if j == 20 {
            } else if j == 21 {
            } else if j == 22 {
            } else if j == 23 {
            } else if j == 24 {
            }
        }
    } else if code == 0x1109 {
        reveal_strlit("ESP_ERR_NVS_KEY_TOO_LONG");
        reveal_strlit("[ESP_ERR_NVS_KEY_TOO_LONG]: Key name is too long");
        assert(spec_error_info(code).unwrap().subrange(0, spec_error_name(code).unwrap().len() + 4int)
            =~= seq!['['] + spec_error_name(code).unwrap() + seq![']', ':', ' ']);
        assert(ESP_IDF_ERROR_CODES@[22] == code);
        let name = spec_error_name(code).unwrap();
        assert(name.subrange(0, 4) =~= seq!['E', 'S', 'P', '_']);
        assert(name.subrange(0, 8) =~= seq!['E', 'S', 'P', '_', 'E', 'R', 'R', '_']);
        assert forall|j: int| 0 <= j < name.len() implies is_name_char(#[trigger] name[j]) by {
            if j == 0 {
            } else if j == 1 {
            } else if j == 2 {
            } else if j == 3 {
            } else if j == 4 {
            } else if j == 5 {
            } else if j == 6 {
            } else if j == 7 {
            } else if j == 8 {
            } else if j == 9 {
            } else if j == 10 {
            } else if j == 11 {
            } else if j == 12 {
            } else if j == 13 {
            } else if j == 14 {
            } else if j == 15 {
            } else if j == 16 {
            } else if j == 17 {
            } else if j == 18 {
            } else if j == 19 {
            } else if j == 20 {
            } else if j == 21 {
            } else if j == 22 {
            } else if j == 23 {
            }
        }
    } else if code == 0x110a {
        reveal_strlit("ESP_ERR_NVS_PAGE_FULL");
        reveal_strlit("[ESP_ERR_NVS_PAGE_FULL]: Internal error; never returned by nvs API functions");
        assert(spec_error_info(code).unwrap().subrange(0, spec_error_name(code).unwrap().len() + 4int)
            =~= seq!['['] + spec_error_name(code).unwrap() + seq![']', ':', ' ']);
        assert(ESP_IDF_ERROR_CODES@[23] == code);
        let name = spec_error_name(code).unwrap();
        assert(name.subrange(0, 4) =~= seq!['E', 'S', 'P', '_']);
        assert(name.subrange(0, 8) =~= seq!['E', 'S', 'P', '_', 'E', 'R', 'R', '_']);
        assert forall|j: int| 0 <= j < name.len() implies is_name_char(#[trigger] name[j]) by {
            if j == 0 {
            } else if j == 1 {
            } else if j == 2 {
            } else if j == 3 {
            } else if j == 4 {
            } else if j == 5 {
            } else if j == 6 {
            } else if j == 7 {
            } else if j == 8 {
            } else if j == 9 {
            } else if j == 10 {
            } else if j == 11 {
            } else if j == 12 {
            } else if j == 13 {
            } else if j == 14 {
            } else if j == 15 {
            } else if j == 16 {
            } else if j == 17 {
            } else if j == 18 {
            } else if j == 19 {
            } else if j == 20 {
            }
        }
    } else if code == 0x110b {
        reveal_strlit("ESP_ERR_NVS_INVALID_STATE");
        reveal_strlit("[ESP_ERR_NVS_INVALID_STATE]: NVS is in an inconsistent state due to a previous error. Call nvs_flash_init and nvs_open again, then retry.");
        assert(spec_error_info(code).unwrap().subrange(0, spec_error_name(code).unwrap().len() + 4int)
            =~= seq!['['] + spec_error_name(code).unwrap() + seq![']', ':', ' ']);
        assert(ESP_IDF_ERROR_CODES@[24] == code);
        let name = spec_error_name(code).unwrap();
        assert(name.subrange(0, 4) =~= seq!['E', 'S', 'P', '_']);
        assert(name.subrange(0, 8) =~= seq!['E', 'S', 'P', '_', 'E', 'R', 'R', '_']);
        assert forall|j: int| 0 <= j < name.len() implies is_name_char(#[trigger] name[j]) by {
            if j == 0 {
            } else if j == 1 {
            } else if j == 2 {
            } else if j == 3 {
            } else if j == 4 {
            } else if j == 5 {
            } else if j == 6 {
            } else if j == 7 {
            } else if j == 8 {
            } else if j == 9 {
            } else if j == 10 {
            } else if j == 11 {
            } else if j == 12 {
            } else if j == 13 {
            } else if j == 14 {
            } else if j == 15 {
            } else if j == 16 {
            } else if j == 17 {
            } else if j == 18 {
            } else if j == 19 {
            } else if j == 20 {
            } else if j == 21 {
            } else if j == 22 {
            } else if j == 23 {
            } else if j == 24 {
            }
        }
    } else if code == 0x110c {
        reveal_strlit("ESP_ERR_NVS_INVALID_LENGTH");
        reveal_strlit("[ESP_ERR_NVS_INVALID_LENGTH]: String or blob length is not sufficient to store data");
        assert(spec_error_info(code).unwrap().subrange(0, spec_error_name(code).unwrap().len() + 4int)
            =~= seq!['['] + spec_error_name(code).unwrap() + seq![']', ':', ' ']);
        assert(ESP_IDF_ERROR_CODES@[25] == code);
        let name = spec_error_name(code).unwrap();
        assert(name.subrange(0, 4) =~= seq!['E', 'S', 'P', '_']);
        assert(name.subrange(0, 8) =~= seq!['E', 'S', 'P', '_', 'E', 'R', 'R', '_']);
        assert forall|j: int| 0 <= j < name.len() implies is_name_char(#[trigger] name[j]) by {
            if j == 0 {
            } else if j == 1 {
            } else if j == 2 {
            } else if j == 3 {
            } else if j == 4 {
            } else if j == 5 {
            } else if j == 6 {
            } else if j == 7 {
            } else if j == 8 {
            } else if j == 9 {
            } else if j == 10 {
            } else if j == 11 {
            } else if j == 12 {
            } else if j == 13 {
            } else if j == 14 {
            } else if j == 15 {
            } else if j == 16 {
            } else if j == 17 {
            } else if j == 18 {
            } else if j == 19 {
            } else if j == 20 {
            } else if j == 21 {
            } else if j == 22 {
            } else if j == 23 {
            } else if j == 24 {
            } else if j == 25 {
            }
        }
    } else if code == 0x110d {
        reveal_strlit("ESP_ERR_NVS_NO_FREE_PAGES");
        reveal_strlit("[ESP_ERR_NVS_NO_FREE_PAGES]: NVS partition doesn't contain any empty pages. This may happen if NVS partition was truncated. Erase the whole partition and call nvs_flash_init again.");
        assert(spec_error_info(code).unwrap().subrange(0, spec_error_name(code).unwrap().len() + 4int)
            =~= seq!['['] + spec_error_name(code).unwrap() + seq![']', ':', ' ']);
        assert(ESP_IDF_ERROR_CODES@[26] == code);
        let name = spec_error_name(code).unwrap();
        assert(name.subrange(0, 4) =~= seq!['E', 'S', 'P', '_']);
        assert(name.subrange(0, 8) =~= seq!['E', 'S', 'P', '_', 'E', 'R', 'R', '_']);
        assert forall|j: int| 0 <= j < name.len() implies is_name_char(#[trigger] name[j]) by {
            if j == 0 {
            } else if j == 1 {
            } else if j == 2 {
            } else if j == 3 {
            } else if j == 4 {
            } else if j == 5 {
            } else if j == 6 {
            } else if j == 7 {
            } else if j == 8 {
            } else if j == 9 {
            } else if j == 10 {
            } else if j == 11 {
            } else if j == 12 {
            } else if j == 13 {
            } else if j == 14 {
            } else if j == 15 {
            } else if j == 16 {
            } else if j == 17 {
            } else if j == 18 {
            } else if j == 19 {
            } else if j == 20 {
            } else if j == 21 {
            } else if j == 22 {
            } else if j == 23 {
            } else if j == 24 {
            }
        }
    } else if code == 0x110e {
        reveal_strlit("ESP_ERR_NVS_VALUE_TOO_LONG");
        reveal_strlit("[ESP_ERR_NVS_VALUE_TOO_LONG]: Value doesn't fit into the entry or string or blob length is longer than supported by the implementation");
        assert(spec_error_info(code).unwrap().subrange(0, spec_error_name(code).unwrap().len() + 4int)
            =~= seq!['['] + spec_error_name(code).unwrap() + seq![']', ':', ' ']);
        assert(ESP_IDF_ERROR_CODES@[27] == code);
        let name = spec_error_name(code).unwrap();
        assert(name.subrange(0, 4) =~= seq!['E', 'S', 'P', '_']);
        assert(name.subrange(0, 8) =~= seq!['E', 'S', 'P', '_', 'E', 'R', 'R', '_']);
        assert forall|j: int| 0 <= j < name.len() implies is_name_char(#[trigger] name[j]) by {
            if j == 0 {
            } else if j == 1 {
            } else if j == 2 {
            } else if j == 3 {
            } else if j == 4 {
            } else if j == 5 {
            } else if j == 6 {
            } else if j == 7 {
            } else if j == 8 {
            } else if j == 9 {
            } else if j == 10 {
            } else if j == 11 {
            } else if j == 12 {
            } else if j == 13 {
            } else if j == 14 {
            } else if j == 15 {
            } else if j == 16 {
            } else if j == 17 {
            } else if j == 18 {
            } else if j == 19 {
            } else if j == 20 {
            } else if j == 21 {
            } else if j == 22 {
            } else if j == 23 {
            } else if j == 24 {
            } else if j == 25 {
            }
        }
    } else if code == 0x110f {
        reveal_strlit("ESP_ERR_NVS_PART_NOT_FOUND");
        reveal_strlit("[ESP_ERR_NVS_PART_NOT_FOUND]: Partition with specified name is not found in the partition table");
        assert(spec_error_info(code).unwrap().subrange(0, spec_error_name(code).unwrap().len() + 4int)
            =~= seq!['['] + spec_error_name(code).unwrap() + seq![']', ':', ' ']);
        assert(ESP_IDF_ERROR_CODES@[28] == code);
        let name = spec_error_name(code).unwrap();
        assert(name.subrange(0, 4) =~= seq!['E', 'S', 'P', '_']);
        assert(name.subrange(0, 8) =~= seq!['E', 'S', 'P', '_', 'E', 'R', 'R', '_']);
        assert forall|j: int| 0 <= j < name.len() implies is_name_char(#[trigger] name[j]) by {
            if j == 0 {
            } else if j == 1 {
            } else if j == 2 {
            } else if j == 3 {
            } else if j == 4 {
            } else if j == 5 {
            } else if j == 6 {
            } else if j == 7 {
            } else if j == 8 {
            } else if j == 9 {
            } else if j == 10 {
            } else if j == 11 {
            } else if j == 12 {
            } else if j == 13 {
            } else if j == 14 {
            } else if j == 15 {
            } else if j == 16 {
            } else if j == 17 {
            } else if j == 18 {
            } else if j == 19 {
            } else if j == 20 {
            } else if j == 21 {
            } else if j == 22 {
            } else if j == 23 {
            } else if j == 24 {
            } else if j == 25 {
            }
        }
    } else if code == 0x1110 {
        reveal_strlit("ESP_ERR_NVS_NEW_VERSION_FOUND");
        reveal_strlit("[ESP_ERR_NVS_NEW_VERSION_FOUND]: NVS partition contains data in new format and cannot be recognized by this version of code");
        assert(spec_error_info(code).unwrap().subrange(0, spec_error_name(code).unwrap().len() + 4int)
            =~= seq!['['] + spec_error_name(code).unwrap() + seq![']', ':', ' ']);
        assert(ESP_IDF_ERROR_CODES@[29] == code);
        let name = spec_error_name(code).unwrap();
        assert(name.subrange(0, 4) =~= seq!['E', 'S', 'P', '_']);
        assert(name.subrange(0, 8) =~= seq!['E', 'S', 'P', '_', 'E', 'R', 'R', '_']);
        assert forall|j: int| 0 <= j < name.len() implies is_name_char(#[trigger] name[j]) by {
            if j == 0 {
            } else if j == 1 {
            } else if j == 2 {
            } else if j == 3 {
            } else if j == 4 {
            } else if j == 5 {
            } else if j == 6 {
            } else if j == 7 {
            } else if j == 8 {
            } else if j == 9 {
            } else if j == 10 {
            } else if j == 11 {
            } else if j == 12 {
            } else if j == 13 {
            } else if j == 14 {
            } else if j == 15 {
            } else if j == 16 {
            } else if j == 17 {
            } else if j == 18 {
            } else if j == 19 {
            } else if j == 20 {
            } else if j == 21 {
            } else if j == 22 {
            } else if j == 23 {
            } else if j == 24 {
            } else if j == 25 {
            } else if j == 26 {
            } else if j == 27 {
            } else if j == 28 {
            }
        }
    } else if code == 0x1111 {
        reveal_strlit("ESP_ERR_NVS_XTS_ENCR_FAILED");
        reveal_strlit("[ESP_ERR_NVS_XTS_ENCR_FAILED]: XTS encryption failed while writing NVS entry");
        assert(spec_error_info(code).unwrap().subrange(0, spec_error_name(code).unwrap().len() + 4int)
            =~= seq!['['] + spec_error_name(code).unwrap() + seq![']', ':', ' ']);
        assert(ESP_IDF_ERROR_CODES@[30] == code);
        let name = spec_error_name(code).unwrap();
        assert(name.subrange(0, 4) =~= seq!['E', 'S', 'P', '_']);
        assert(name.subrange(0, 8) =~= seq!['E', 'S', 'P', '_', 'E', 'R', 'R', '_']);
        assert forall|j: int| 0 <= j < name.len() implies is_name_char(#[trigger] name[j]) by {
            if j == 0 {
            } else if j == 1 {
            } else if j == 2 {
            } else if j == 3 {
            } else if j == 4 {
            } else if j == 5 {
            } else if j == 6 {
            } else if j == 7 {
            } else if j == 8 {
            } else if j == 9 {
            } else if j == 10 {
            } else if j == 11 {
            } else if j == 12 {
            } else if j == 13 {
            } else if j == 14 {
            } else if j == 15 {
            } else if j == 16 {
            } else if j == 17 {
            } else if j == 18 {
            } else if j == 19 {
            } else if j == 20 {
            } else if j == 21 {
            } else if j == 22 {
            } else if j == 23 {
            } else if j == 24 {
            } else if j == 25 {
            } else if j == 26 {
            }
        }
    } else if code == 0x1112 {
        reveal_strlit("ESP_ERR_NVS_XTS_DECR_FAILED");
        reveal_strlit("[ESP_ERR_NVS_XTS_DECR_FAILED]: XTS decryption failed while reading NVS entry");
        assert(spec_error_info(code).unwrap().subrange(0, spec_error_name(code).unwrap().len() + 4int)
            =~= seq!['['] + spec_error_name(code).unwrap() + seq![']', ':', ' ']);
        assert(ESP_IDF_ERROR_CODES@[31] == code);
        let name = spec_error_name(code).unwrap();
        assert(name.subrange(0, 4) =~= seq!['E', 'S', 'P', '_']);
        assert(name.subrange(0, 8) =~= seq!['E', 'S', 'P', '_', 'E', 'R', 'R', '_']);
        assert forall|j: int| 0 <= j < name.len() implies is_name_char(#[trigger] name[j]) by {
            if j == 0 {
            } else if j == 1 {
            } else if j == 2 {
            } else if j == 3 {
            } else if j == 4 {
            } else if j == 5 {
            } else if j == 6 {
            } else if j == 7 {
            } else if j == 8 {
            } else if j == 9 {
            } else if j == 10 {
            } else if j == 11 {
            } else if j == 12 {
            } else if j == 13 {
            } else if j == 14 {
            } else if j == 15 {
            } else if j == 16 {
            } else if j == 17 {
            } else if j == 18 {
            } else if j == 19 {
            } else if j == 20 {
            } else if j == 21 {
            } else if j == 22 {
            } else if j == 23 {
            } else if j == 24 {
            } else if j == 25 {
            } else if j == 26 {
            }
        }
    }
}

/// Entries 16 to 31 of `ESP_IDF_ERROR_CODES` are known codes, each below the next.
proof fn lemma_table_indices_1(i: int)
    requires
        16 <= i < 32,
    ensures
        is_error_code(ESP_IDF_ERROR_CODES@[i]),
        ESP_IDF_ERROR_CODES@[i] < ESP_IDF_ERROR_CODES@[i + 1],
{
    if i == 16 {
        assert(ESP_IDF_ERROR_CODES@[i] == 0x1103);
        assert(ESP_IDF_ERROR_CODES@[i + 1] == 0x1104);
    } else if i == 17 {
        assert(ESP_IDF_ERROR_CODES@[i] == 0x1104);
        assert(ESP_IDF_ERROR_CODES@[i + 1] == 0x1105);
    } else if i == 18 {
        assert(ESP_IDF_ERROR_CODES@[i] == 0x1105);
        assert(ESP_IDF_ERROR_CODES@[i + 1] == 0x1106);
    } else if i == 19 {
        assert(ESP_IDF_ERROR_CODES@[i] == 0x1106);
        assert(ESP_IDF_ERROR_CODES@[i + 1] == 0x1107);
    } else if i == 20 {
        assert(ESP_IDF_ERROR_CODES@[i] == 0x1107);
        assert(ESP_IDF_ERROR_CODES@[i + 1] == 0x1108);
    } else if i == 21 {
        assert(ESP_IDF_ERROR_CODES@[i] == 0x1108);
        assert(ESP_IDF_ERROR_CODES@[i + 1] == 0x1109);
    } else if i == 22 {
        assert(ESP_IDF_ERROR_CODES@[i] == 0x1109);
        assert(ESP_IDF_ERROR_CODES@[i + 1] == 0x110a);
    } else if i == 23 {
        assert(ESP_IDF_ERROR_CODES@[i] == 0x110a);
        assert(ESP_IDF_ERROR_CODES@[i + 1] == 0x110b);
    } else if i == 24 {
        assert(ESP_IDF_ERROR_CODES@[i] == 0x110b);
        assert(ESP_IDF_ERROR_CODES@[i + 1] == 0x110c);
    } else if i == 25 {
        assert(ESP_IDF_ERROR_CODES@[i] == 0x110c);
        assert(ESP_IDF_ERROR_CODES@[i + 1] == 0x110d);
    } else if i == 26 {
        assert(ESP_IDF_ERROR_CODES@[i] == 0x110d);
        assert(ESP_IDF_ERROR_CODES@[i + 1] == 0x110e);
    } else if i == 27 {
        assert(ESP_IDF_ERROR_CODES@[i] == 0x110e);
        assert(ESP_IDF_ERROR_CODES@[i + 1] == 0x110f);
    } else if i == 28 {
        assert(ESP_IDF_ERROR_CODES@[i] == 0x110f);
        assert(ESP_IDF_ERROR_CODES@[i + 1] == 0x1110);
    } else if i == 29 {
        assert(ESP_IDF_ERROR_CODES@[i] == 0x1110);
        assert(ESP_IDF_ERROR_CODES@[i + 1] == 0x1111);
    } else if i == 30 {
        assert(ESP_IDF_ERROR_CODES@[i] == 0x1111);
        assert(ESP_IDF_ERROR_CODES@[i + 1] == 0x1112);
    } else if i == 31 {
        assert(ESP_IDF_ERROR_CODES@[i] == 0x1112);
        assert(ESP_IDF_ERROR_CODES@[i + 1] == 0x1113);
    }
}

/// The table facts for every code from `0x1113` to `0x1504`.
proof fn lemma_table_codes_2(code: i32)
    requires
        0x1113 <= code <= 0x1504,
    ensures
        table_facts(code),
{
    if code == 0x1113 {
        reveal_strlit("ESP_ERR_NVS_XTS_CFG_FAILED");
        reveal_strlit("[ESP_ERR_NVS_XTS_CFG_FAILED]: XTS configuration setting failed");
        assert(spec_error_info(code).unwrap().subrange(0, spec_error_name(code).unwrap().len() + 4int)
            =~= seq!['['] + spec_error_name(code).unwrap() + seq![']', ':', ' ']);
        assert(ESP_IDF_ERROR_CODES@[32] == code);
        let name = spec_error_name(code).unwrap();
        assert(name.subrange(0, 4) =~= seq!['E', 'S', 'P', '_']);
        assert(name.subrange(0, 8) =~= seq!['E', 'S', 'P', '_', 'E', 'R', 'R', '_']);
        assert forall|j: int| 0 <= j < name.len() implies is_name_char(#[trigger] name[j]) by {
            if j == 0 {
            } else if j == 1 {
            } else if j == 2 {
            } else if j == 3 {
            } else if j == 4 {
            } else if j == 5 {
            } else if j == 6 {
            } else if j == 7 {
            } else if j == 8 {
            } else if j == 9 {
            } else if j == 10 {
            } else if j == 11 {
            } else if j == 12 {
            } else if j == 13 {
            } else if j == 14 {
            } else if j == 15 {
            } else if j == 16 {
            } else if j == 17 {
            } else if j == 18 {
            } else if j == 19 {
            } else if j == 20 {
            } else if j == 21 {
            } else if j == 22 {
            } else if j == 23 {
            } else if j == 24 {
            } else if j == 25 {
            }
        }
    } else if code == 0x1114 {
        reveal_strlit("ESP_ERR_NVS_XTS_CFG_NOT_FOUND");
        reveal_strlit("[ESP_ERR_NVS_XTS_CFG_NOT_FOUND]: XTS configuration not found");
        assert(spec_error_info(code).unwrap().subrange(0, spec_error_name(code).unwrap().len() + 4int)
            =~= seq!['['] + spec_error_name(code).unwrap() + seq![']', ':', ' ']);
        assert(ESP_IDF_ERROR_CODES@[33] == code);
        let name = spec_error_name(code).unwrap();
        assert(name.subrange(0, 4) =~= seq!['E', 'S', 'P', '_']);
        assert(name.subrange(0, 8) =~= seq!['E', 'S', 'P', '_', 'E', 'R', 'R', '_']);
        assert forall|j: int| 0 <= j < name.len() implies is_name_char(#[trigger] name[j]) by {
            if j == 0 {
            } else if j == 1 {
            } else if j == 2 {
            } else if j == 3 {
            } else if j == 4 {
            } else if j == 5 {
            } else if j == 6 {
            } else if j == 7 {
            } else if j == 8 {
            } else if j == 9 {
            } else if j == 10 {
            } else if j == 11 {
            } else if j == 12 {
            } else if j == 13 {
            } else if j == 14 {
            } else if j == 15 {
            } else if j == 16 {
            } else if j == 17 {
            } else if j == 18 {
            } else if j == 19 {
            } else if j == 20 {
            } else if j == 21 {
            } else if j == 22 {
            } else if j == 23 {
            } else if j == 24 {
            } else if j == 25 {
            } else if j == 26 {
            } else if j == 27 {
            } else if j == 28 {
            }
        }
    } else if code == 0x1115 {
        reveal_strlit("ESP_ERR_NVS_ENCR_NOT_SUPPORTED");
        reveal_strlit("[ESP_ERR_NVS_ENCR_NOT_SUPPORTED]: NVS encryption is not supported in this version");
        assert(spec_error_info(code).unwrap().subrange(0, spec_error_name(code).unwrap().len() + 4int)
            =~= seq!['['] + spec_error_name(code).unwrap() + seq![']', ':', ' ']);
        assert(ESP_IDF_ERROR_CODES@[34] == code);
        let name = spec_error_name(code).unwrap();
        assert(name.subrange(0, 4) =~= seq!['E', 'S', 'P', '_']);
        assert(name.subrange(0, 8) =~= seq!['E', 'S', 'P', '_', 'E', 'R', 'R', '_']);
        assert forall|j: int| 0 <= j < name.len() implies is_name_char(#[trigger] name[j]) by {
            if j == 0 {
            } else if j == 1 {
            } else if j == 2 {
            } else if j == 3 {
            } else if j == 4 {
            } else if j == 5 {
            } else if j == 6 {
            } else if j == 7 {
            } else if j == 8 {
            } else if j == 9 {
            } else if j == 10 {
            } else if j == 11 {
            } else if j == 12 {
            } else if j == 13 {
            } else if j == 14 {
            } else if j == 15 {
            } else if j == 16 {
            } else if j == 17 {
            } else if j == 18 {
            } else if j == 19 {
            } else if j == 20 {
            } else if j == 21 {
            } else if j == 22 {
            } else if j == 23 {
            } else if j == 24 {
            } else if j == 25 {
            } else if j == 26 {
            } else if j == 27 {
            } else if j == 28 {
            } else if j == 29 {
            }
        }
    } else if code == 0x1116 {
        reveal_strlit("ESP_ERR_NVS_KEYS_NOT_INITIALIZED");
        reveal_strlit("[ESP_ERR_NVS_KEYS_NOT_INITIALIZED]: NVS key partition is uninitialized");
        assert(spec_error_info(code).unwrap().subrange(0, spec_error_name(code).unwrap().len() + 4int)
            =~= seq!['['] + spec_error_name(code).unwrap() + seq![']', ':', ' ']);
        assert(ESP_IDF_ERROR_CODES@[35] == code);
        let name = spec_error_name(code).unwrap();
        assert(name.subrange(0, 4) =~= seq!['E', 'S', 'P', '_']);
        assert(name.subrange(0, 8) =~= seq!['E', 'S', 'P', '_', 'E', 'R', 'R', '_']);
        assert forall|j: int| 0 <= j < name.len() implies is_name_char(#[trigger] name[j]) by {
            if j == 0 {
            } else if j == 1 {
            } else if j == 2 {
            } else if j == 3 {
            } else if j == 4 {
            } else if j == 5 {
            } else if j == 6 {
            } else if j == 7 {
            } else if j == 8 {
            } else if j == 9 {
            } else if j == 10 {
            } else if j == 11 {
            } else if j == 12 {
            } else if j == 13 {
            } else if j == 14 {
            } else if j == 15 {
            } else if j == 16 {
            } else if j == 17 {
            } else if j == 18 {
            } else if j == 19 {
            } else if j == 20 {
            } else if j == 21 {
            } else if j == 22 {
            } else if j == 23 {
            } else if j == 24 {
            } else if j == 25 {
            } else if j == 26 {
            } else if j == 27 {
            } else if j == 28 {
            } else if j == 29 {
            } else if j == 30 {
            } else if j == 31 {
            }
        }
    } else if code == 0x1117 {
        reveal_strlit("ESP_ERR_NVS_CORRUPT_KEY_PART");
        reveal_strlit("[ESP_ERR_NVS_CORRUPT_KEY_PART]: NVS key partition is corrupt");
        assert(spec_error_info(code).unwrap().subrange(0, spec_error_name(code).unwrap().len() + 4int)
            =~= seq!['['] + spec_error_name(code).unwrap() + seq![']', ':', ' ']);
        assert(ESP_IDF_ERROR_CODES@[36] == code);
        let name = spec_error_name(code).unwrap();
        assert(name.subrange(0, 4) =~= seq!['E', 'S', 'P', '_']);
        assert(name.subrange(0, 8) =~= seq!['E', 'S', 'P', '_', 'E', 'R', 'R', '_']);
        assert forall|j: int| 0 <= j < name.len() implies is_name_char(#[trigger] name[j]) by {
            if j == 0 {
            } else if j == 1 {
            } else if j == 2 {
            } else if j == 3 {
            } else if j == 4 {
            } else if j == 5 {
            } else if j == 6 {
            } else if j == 7 {
            } else if j == 8 {
            } else if j == 9 {
            } else if j == 10 {
            } else if j == 11 {
            } else if j == 12 {
            } else if j == 13 {
            } else if j == 14 {
            } else if j == 15 {
            } else if j == 16 {
            } else if j == 17 {
            } else if j == 18 {
            } else if j == 19 {
            } else if j == 20 {
            } else if j == 21 {
            } else if j == 22 {
            } else if j == 23 {
            } else if j == 24 {
            } else if j == 25 {
            } else if j == 26 {
            } else if j == 27 {
            }
        }
    } else if code == 0x1118 {
        reveal_strlit("ESP_ERR_NVS_CONTENT_DIFFERS");
        reveal_strlit("[ESP_ERR_NVS_CONTENT_DIFFERS]: Internal error; never returned by nvs API functions. NVS key is different in comparison");
        assert(spec_error_info(code).unwrap().subrange(0, spec_error_name(code).unwrap().len() + 4int)
            =~= seq!['['] + spec_error_name(code).unwrap() + seq![']', ':', ' ']);
        assert(ESP_IDF_ERROR_CODES@[37] == code);
        let name = spec_error_name(code).unwrap();
        assert(name.subrange(0, 4) =~= seq!['E', 'S', 'P', '_']);
        assert(name.subrange(0, 8) =~= seq!['E', 'S', 'P', '_', 'E', 'R', 'R', '_']);
        assert forall|j: int| 0 <= j < name.len() implies is_name_char(#[trigger] name[j]) by {
            if j == 0 {
            } else if j == 1 {
            } else if j == 2 {
            } else if j == 3 {
            } else if j == 4 {
            } else if j == 5 {
            } else if j == 6 {
            } else if j == 7 {
            } else if j == 8 {
            } else if j == 9 {
            } else if j == 10 {
            } else if j == 11 {
            } else if j == 12 {
            } else if j == 13 {
            } else if j == 14 {
            } else if j == 15 {
            } else if j == 16 {
            } else if j == 17 {
            } else if j == 18 {
            } else if j == 19 {
            } else if j == 20 {
            } else if j == 21 {
            } else if j == 22 {
            } else if j == 23 {
            } else if j == 24 {
            } else if j == 25 {
            } else if j == 26 {
            }
        }
    } else if code == 0x1119 {
        reveal_strlit("ESP_ERR_NVS_WRONG_ENCRYPTION");
        reveal_strlit("[ESP_ERR_NVS_WRONG_ENCRYPTION]: NVS partition is marked as encrypted with generic flash encryption. This is forbidden since the NVS encryption works differently.");
        assert(spec_error_info(code).unwrap().subrange(0, spec_error_name(code).unwrap().len() + 4int)
            =~= seq!['['] + spec_error_name(code).unwrap() + seq![']', ':', ' ']);
        assert(ESP_IDF_ERROR_CODES@[38] == code);
        let name = spec_error_name(code).unwrap();
        assert(name.subrange(0, 4) =~= seq!['E', 'S', 'P', '_']);
        assert(name.subrange(0, 8) =~= seq!['E', 'S', 'P', '_', 'E', 'R', 'R', '_']);
        assert forall|j: int| 0 <= j < name.len() implies is_name_char(#[trigger] name[j]) by {
            if j == 0 {
            } else if j == 1 {
            } else if j == 2 {
            } else if j == 3 {
            } else if j == 4 {
            } else if j == 5 {
            } else if j == 6 {
            } else if j == 7 {
            } else if j == 8 {
            } else if j == 9 {
            } else if j == 10 {
            } else if j == 11 {
            } else if j == 12 {
            } else if j == 13 {
            } else if j == 14 {
            } else if j == 15 {
            } else if j == 16 {
            } else if j == 17 {
            } else if j == 18 {
            } else if j == 19 {
            } else if j == 20 {
            } else if j == 21 {
            } else if j == 22 {
            } else if j == 23 {
            } else if j == 24 {
            } else if j == 25 {
            } else if j == 26 {
            } else if j == 27 {
            }
        }
    } else if code == 0x1201 {
        reveal_strlit("ESP_ERR_ULP_SIZE_TOO_BIG");
        reveal_strlit("[ESP_ERR_ULP_SIZE_TOO_BIG]: Program doesn't fit into RTC memory reserved for the ULP");
        assert(spec_error_info(code).unwrap().subrange(0, spec_error_name(code).unwrap().len() + 4int)
            =~= seq!['['] + spec_error_name(code).unwrap() + seq![']', ':', ' ']);
        assert(ESP_IDF_ERROR_CODES@[39] == code);
        let name = spec_error_name(code).unwrap();
        assert(name.subrange(0, 4) =~= seq!['E', 'S', 'P', '_']);
        assert(name.subrange(0, 8) =~= seq!['E', 'S', 'P', '_', 'E', 'R', 'R', '_']);
        assert forall|j: int| 0 <= j < name.len() implies is_name_char(#[trigger] name[j]) by {
            if j == 0 {
            } else if j == 1 {
            } else if j == 2 {
            } else if j == 3 {
            } else if j == 4 {
            } else if j == 5 {
            } else if j == 6 {
            } else if j == 7 {
            } else if j == 8 {
            } else if j == 9 {
            } else if j == 10 {
            } else if j == 11 {
            } else if j == 12 {
            } else if j == 13 {
            } else if j == 14 {
            } else if j == 15 {
            } else if j == 16 {
            } else if j == 17 {
            } else if j == 18 {
            } else if j == 19 {
            } else if j == 20 {
            } else if j == 21 {
            } else if j == 22 {
            } else if j == 23 {
            }
        }
    } else if code == 0x1202 {
        reveal_strlit("ESP_ERR_ULP_INVALID_LOAD_ADDR");
        reveal_strlit("[ESP_ERR_ULP_INVALID_LOAD_ADDR]: Load address is outside of RTC memory reserved for the ULP");
        assert(spec_error_info(code).unwrap().subrange(0, spec_error_name(code).unwrap().len() + 4int)
            =~= seq!['['] + spec_error_name(code).unwrap() + seq![']', ':', ' ']);
        assert(ESP_IDF_ERROR_CODES@[40] == code);
        let name = spec_error_name(code).unwrap();
        assert(name.subrange(0, 4) =~= seq!['E', 'S', 'P', '_']);
        assert(name.subrange(0, 8) =~= seq!['E', 'S', 'P', '_', 'E', 'R', 'R', '_']);
        assert forall|j: int| 0 <= j < name.len() implies is_name_char(#[trigger] name[j]) by {
            if j == 0 {
            } else if j == 1 {
            } else if j == 2 {
            } else if j == 3 {
            } else if j == 4 {
            } else if j == 5 {
            } else if j == 6 {
            } else if j == 7 {
            } else if j == 8 {
            } else if j == 9 {
            } else if j == 10 {
            } else if j == 11 {
            } else if j == 12 {
            } else if j == 13 {
            } else if j == 14 {
            } else if j == 15 {
            } else if j == 16 {
            } else if j == 17 {
            } else if j == 18 {
            } else if j == 19 {
            } else if j == 20 {
            } else if j == 21 {
            } else if j == 22 {
            } else if j == 23 {
            } else if j == 24 {
            } else if j == 25 {
            } else if j == 26 {
            } else if j == 27 {
            } else if j == 28 {
            }
        }
    } else if code == 0x1203 {
        reveal_strlit("ESP_ERR_ULP_DUPLICATE_LABEL");
        reveal_strlit("[ESP_ERR_ULP_DUPLICATE_LABEL]: More than one label with the same number was defined");
        assert(spec_error_info(code).unwrap().subrange(0, spec_error_name(code).unwrap().len() + 4int)
            =~= seq!['['] + spec_error_name(code).unwrap() + seq![']', ':', ' ']);
        assert(ESP_IDF_ERROR_CODES@[41] == code);
        let name = spec_error_name(code).unwrap();
        assert(name.subrange(0, 4) =~= seq!['E', 'S', 'P', '_']);
        assert(name.subrange(0, 8) =~= seq!['E', 'S', 'P', '_', 'E', 'R', 'R', '_']);
        assert forall|j: int| 0 <= j < name.len() implies is_name_char(#[trigger] name[j]) by {
            if j == 0 {
            } else if j == 1 {
            } else if j == 2 {
            } else if j == 3 {
            } else if j == 4 {
            } else if j == 5 {
            } else if j == 6 {
            } else if j == 7 {
            } else if j == 8 {
            } else if j == 9 {
            } else if j == 10 {
            } else if j == 11 {
            } else if j == 12 {
            } else if j == 13 {
            } else if j == 14 {
            } else if j == 15 {
            } else if j == 16 {
            } else if j == 17 {
            } else if j == 18 {
            } else if j == 19 {
            } else if j == 20 {
            } else if j == 21 {
            } else if j == 22 {
            } else if j == 23 {
            } else if j == 24 {
            } else if j == 25 {
            } else if j == 26 {
            }
        }
    } else if code == 0x1204 {
        reveal_strlit("ESP_ERR_ULP_UNDEFINED_LABEL");
        reveal_strlit("[ESP_ERR_ULP_UNDEFINED_LABEL]: Branch instructions references an undefined label");
        assert(spec_error_info(code).unwrap().subrange(0, spec_error_name(code).unwrap().len() + 4int)
            =~= seq!['['] + spec_error_name(code).unwrap() + seq![']', ':', ' ']);
        assert(ESP_IDF_ERROR_CODES@[42] == code);
        let name = spec_error_name(code).unwrap();
        assert(name.subrange(0, 4) =~= seq!['E', 'S', 'P', '_']);
        assert(name.subrange(0, 8) =~= seq!['E', 'S', 'P', '_', 'E', 'R', 'R', '_']);
        assert forall|j: int| 0 <= j < name.len() implies is_name_char(#[trigger] name[j]) by {
            if j == 0 {
            } else if j == 1 {
            } else if j == 2 {
            } else if j == 3 {
            } else if j == 4 {
            } else if j == 5 {
            } else if j == 6 {
            } else if j == 7 {
            } else if j == 8 {
            } else if j == 9 {
            } else if j == 10 {
            } else if j == 11 {
            } else if j == 12 {
            } else if j == 13 {
            } else if j == 14 {
            } else if j == 15 {
            } else if j == 16 {
            } else if j == 17 {
            } else if j == 18 {
            } else if j == 19 {
            } else if j == 20 {
            } else if j == 21 {
            } else if j == 22 {
            } else if j == 23 {
            } else if j == 24 {
            } else if j == 25 {
            } else if j == 26 {
            }
        }
    } else if code == 0x1205 {
        reveal_strlit("ESP_ERR_ULP_BRANCH_OUT_OF_RANGE");
        reveal_strlit("[ESP_ERR_ULP_BRANCH_OUT_OF_RANGE]: Branch target is out of range of B instruction (try replacing with BX)");
        assert(spec_error_info(code).unwrap().subrange(0, spec_error_name(code).unwrap().len() + 4int)
            =~= seq!['['] + spec_error_name(code).unwrap() + seq![']', ':', ' ']);
        assert(ESP_IDF_ERROR_CODES@[43] == code);
        let name = spec_error_name(code).unwrap();
        assert(name.subrange(0, 4) =~= seq!['E', 'S', 'P', '_']);
        assert(name.subrange(0, 8) =~= seq!['E', 'S', 'P', '_', 'E', 'R', 'R', '_']);
        assert forall|j: int| 0 <= j < name.len() implies is_name_char(#[trigger] name[j]) by {
            if j == 0 {
            } else if j == 1 {
            } else if j == 2 {
            } else if j == 3 {
            } else if j == 4 {
            } else if j == 5 {
            } else if j == 6 {
            } else if j == 7 {
            } else if j == 8 {
            } else if j == 9 {
            } else if j == 10 {
            } else if j == 11 {
            } else if j == 12 {
            } else if j == 13 {
            } else if j == 14 {
            } else if j == 15 {
            } else if j == 16 {
            } else if j == 17 {
            } else if j == 18 {
            } else if j == 19 {
            } else if j == 20 {
            } else if j == 21 {
            } else if j == 22 {
            } else if j == 23 {
            } else if j == 24 {
            } else if j == 25 {
            } else if j == 26 {
            } else if j == 27 {
            } else if j == 28 {
            } else if j == 29 {
            } else if j == 30 {
            }
        }
    } else if code == 0x1501 {
        reveal_strlit("ESP_ERR_OTA_PARTITION_CONFLICT");
        reveal_strlit("[ESP_ERR_OTA_PARTITION_CONFLICT]: Error if request was to write or erase the current running partition");
        assert(spec_error_info(code).unwrap().subrange(0, spec_error_name(code).unwrap().len() + 4int)
            =~= seq!['['] + spec_error_name(code).unwrap() + seq![']', ':', ' ']);
        assert(ESP_IDF_ERROR_CODES@[44] == code);
        let name = spec_error_name(code).unwrap();
        assert(name.subrange(0, 4) =~= seq!['E', 'S', 'P', '_']);
        assert(name.subrange(0, 8) =~= seq!['E', 'S', 'P', '_', 'E', 'R', 'R', '_']);
        assert forall|j: int| 0 <= j < name.len() implies is_name_char(#[trigger] name[j]) by {
            if j == 0 {
            } else if j == 1 {
            } else if j == 2 {
            } else if j == 3 {
            } else if j == 4 {
            } else if j == 5 {
            } else if j == 6 {
            } else if j == 7 {
            } else if j == 8 {
            } else if j == 9 {
            } else if j == 10 {
            } else if j == 11 {
            } else if j == 12 {
            } else if j == 13 {
            } else if j == 14 {
            } else if j == 15 {
            } else if j == 16 {
            } else if j == 17 {
            } else if j == 18 {
            } else if j == 19 {
            } else if j == 20 {
            } else if j == 21 {
            } else if j == 22 {
            } else if j == 23 {
            } else if j == 24 {
            } else if j == 25 {
            } else if j == 26 {
            } else if j == 27 {
            } else if j == 28 {
            } else if j == 29 {
            }
        }
    } else if code == 0x1502 {
        reveal_strlit("ESP_ERR_OTA_SELECT_INFO_INVALID");
        reveal_strlit("[ESP_ERR_OTA_SELECT_INFO_INVALID]: Error if OTA data partition contains invalid content");
        assert(spec_error_info(code).unwrap().subrange(0, spec_error_name(code).unwrap().len() + 4int)
            =~= seq!['['] + spec_error_name(code).unwrap() + seq![']', ':', ' ']);
        assert(ESP_IDF_ERROR_CODES@[45] == code);
        let name = spec_error_name(code).unwrap();
        assert(name.subrange(0, 4) =~= seq!['E', 'S', 'P', '_']);
        assert(name.subrange(0, 8) =~= seq!['E', 'S', 'P', '_', 'E', 'R', 'R', '_']);
        assert forall|j: int| 0 <= j < name.len() implies is_name_char(#[trigger] name[j]) by {
            if j == 0 {
            } else if j == 1 {
            } else if j == 2 {
            } else if j == 3 {
            } else if j == 4 {
            } else if j == 5 {
            } else if j == 6 {
            } else if j == 7 {
            } else if j == 8 {
            } else if j == 9 {
            } else if j == 10 {
            } else if j == 11 {
            } else if j == 12 {
            } else if j == 13 {
            } else if j == 14 {
            } else if j == 15 {
            } else if j == 16 {
            } else if j == 17 {
            } else if j == 18 {
            } else if j == 19 {
            } else if j == 20 {
            } else if j == 21 {
            } else if j == 22 {
            } else if j == 23 {
            } else if j == 24 {
            } else if j == 25 {
            } else if j == 26 {
            } else if j == 27 {
            } else if j == 28 {
            } else if j == 29 {
            } else if j == 30 {
            }
        }
    } else if code == 0x1503 {
        reveal_strlit("ESP_ERR_OTA_VALIDATE_FAILED");
        reveal_strlit("[ESP_ERR_OTA_VALIDATE_FAILED]: Error if OTA app image is invalid");
        assert(spec_error_info(code).unwrap().subrange(0, spec_error_name(code).unwrap().len() + 4int)
            =~= seq!['['] + spec_error_name(code).unwrap() + seq![']', ':', ' ']);
        assert(ESP_IDF_ERROR_CODES@[46] == code);
        let name = spec_error_name(code).unwrap();
        assert(name.subrange(0, 4) =~= seq!['E', 'S', 'P', '_']);
        assert(name.subrange(0, 8) =~= seq!['E', 'S', 'P', '_', 'E', 'R', 'R', '_']);
        assert forall|j: int| 0 <= j < name.len() implies is_name_char(#[trigger] name[j]) by {
            if j == 0 {
            } else if j == 1 {
            } else if j == 2 {
            } else if j == 3 {
            } else if j == 4 {
            } else if j == 5 {
            } else if j == 6 {
            } else if j == 7 {
            } else if j == 8 {
            } else if j == 9 {
            } else if j == 10 {
            } else if j == 11 {
            } else if j == 12 {
            } else if j == 13 {
            } else if j == 14 {
            } else if j == 15 {
            } else if j == 16 {
            } else if j == 17 {
            } else if j == 18 {
            } else if j == 19 {
            } else if j == 20 {
            } else if j == 21 {
            } else if j == 22 {
            } else if j == 23 {
            } else if j == 24 {
            } else if j == 25 {
            } else if j == 26 {
            }
        }
    } else if code == 0x1504 {
        reveal_strlit("ESP_ERR_OTA_SMALL_SEC_VER");
        reveal_strlit("[ESP_ERR_OTA_SMALL_SEC_VER]: Error if the firmware has a secure version less than the running firmware.");
        assert(spec_error_info(code).unwrap().subrange(0, spec_error_name(code).unwrap().len() + 4int)
            =~= seq!['['] + spec_error_name(code).unwrap() + seq![']', ':', ' ']);
        assert(ESP_IDF_ERROR_CODES@[47] == code);
        let name = spec_error_name(code).unwrap();
        assert(name.subrange(0, 4) =~= seq!['E', 'S', 'P', '_']);
        assert(name.subrange(0, 8) =~= seq!['E', 'S', 'P', '_', 'E', 'R', 'R', '_']);
        assert forall|j: int| 0 <= j < name.len() implies is_name_char(#[trigger] name[j]) by {
            if j == 0 {
            } else if j == 1 {
            } else if j == 2 {
            } else if j == 3 {
            } else if j == 4 {
            } else if j == 5 {
            } else if j == 6 {
            } else if j == 7 {
            } else if j == 8 {
            } else if j == 9 {
            } else if j == 10 {
            } else if j == 11 {
            } else if j == 12 {
            } else if j == 13 {
            } else if j == 14 {
            } else if j == 15 {
            } else if j == 16 {
            } else if j == 17 {
            } else if j == 18 {
            } else if j == 19 {
            } else if j == 20 {
            } else if j == 21 {
            } else if j == 22 {
            } else if j == 23 {
            } else if j == 24 {
            }
        }
    }
}

/// Entries 32 to 47 of `ESP_IDF_ERROR_CODES` are known codes, each below the next.
proof fn lemma_table_indices_2(i: int)
    requires
        32 <= i < 48,
    ensures
        is_error_code(ESP_IDF_ERROR_CODES@[i]),
        ESP_IDF_ERROR_CODES@[i] < ESP_IDF_ERROR_CODES@[i + 1],
{
    if i == 32 {
        assert(ESP_IDF_ERROR_CODES@[i] == 0x1113);
        assert(ESP_IDF_ERROR_CODES@[i + 1] == 0x1114);
    } else if i == 33 {
        assert(ESP_IDF_ERROR_CODES@[i] == 0x1114);
        assert(ESP_IDF_ERROR_CODES@[i + 1] == 0x1115);
    } else if i == 34 {
        assert(ESP_IDF_ERROR_CODES@[i] == 0x1115);
        assert(ESP_IDF_ERROR_CODES@[i + 1] == 0x1116);
    } else if i == 35 {
        assert(ESP_IDF_ERROR_CODES@[i] == 0x1116);
        assert(ESP_IDF_ERROR_CODES@[i + 1] == 0x1117);
    } else if i == 36 {
        assert(ESP_IDF_ERROR_CODES@[i] == 0x1117);
        assert(ESP_IDF_ERROR_CODES@[i + 1] == 0x1118);
    } else if i == 37 {
        assert(ESP_IDF_ERROR_CODES@[i] == 0x1118);
        assert(ESP_IDF_ERROR_CODES@[i + 1] == 0x1119);
    } else if i == 38 {
        assert(ESP_IDF_ERROR_CODES@[i] == 0x1119);
        assert(ESP_IDF_ERROR_CODES@[i + 1] == 0x1201);
    } else if i == 39 {
        assert(ESP_IDF_ERROR_CODES@[i] == 0x1201);
        assert(ESP_IDF_ERROR_CODES@[i + 1] == 0x1202);
    } else if i == 40 {
        assert(ESP_IDF_ERROR_CODES@[i] == 0x1202);
        assert(ESP_IDF_ERROR_CODES@[i + 1] == 0x1203);
    } else if i == 41 {
        assert(ESP_IDF_ERROR_CODES@[i] == 0x1203);
        assert(ESP_IDF_ERROR_CODES@[i + 1] == 0x1204);
    } else if i == 42 {
        assert(ESP_IDF_ERROR_CODES@[i] == 0x1204);
        assert(ESP_IDF_ERROR_CODES@[i + 1] == 0x1205);
    } else if i == 43 {
        assert(ESP_IDF_ERROR_CODES@[i] == 0x1205);
        assert(ESP_IDF_ERROR_CODES@[i + 1] == 0x1501);
    } else if i == 44 {
        assert(ESP_IDF_ERROR_CODES@[i] == 0x1501);
        assert(ESP_IDF_ERROR_CODES@[i + 1] == 0x1502);
    } else if i == 45 {
        assert(ESP_IDF_ERROR_CODES@[i] == 0x1502);
        assert(ESP_IDF_ERROR_CODES@[i + 1] == 0x1503);
    } else if i == 46 {
        assert(ESP_IDF_ERROR_CODES@[i] == 0x1503);
        assert(ESP_IDF_ERROR_CODES@[i + 1] == 0x1504);
    } else if i == 47 {
        assert(ESP_IDF_ERROR_CODES@[i] == 0x1504);
        assert(ESP_IDF_ERROR_CODES@[i + 1] == 0x1505);
    }
}

/// The table facts for every code from `0x1505` to `0x3006`.
proof fn lemma_table_codes_3(code: i32)
    requires
        0x1505 <= code <= 0x3006,
    ensures
        table_facts(code),
{
    if code == 0x1505 {
        reveal_strlit("ESP_ERR_OTA_ROLLBACK_FAILED");
        reveal_strlit("[ESP_ERR_OTA_ROLLBACK_FAILED]: Error if flash does not have valid firmware in passive partition and hence rollback is not possible");
        assert(spec_error_info(code).unwrap().subrange(0, spec_error_name(code).unwrap().len() + 4int)
            =~= seq!['['] + spec_error_name(code).unwrap() + seq![']', ':', ' ']);
        assert(ESP_IDF_ERROR_CODES@[48] == code);
        let name = spec_error_name(code).unwrap();
        assert(name.subrange(0, 4) =~= seq!['E', 'S', 'P', '_']);
        assert(name.subrange(0, 8) =~= seq!['E', 'S', 'P', '_', 'E', 'R', 'R', '_']);
        assert forall|j: int| 0 <= j < name.len() implies is_name_char(#[trigger] name[j]) by {
            if j == 0 {
            } else if j == 1 {
            } else if j == 2 {
            } else if j == 3 {
            } else if j == 4 {
            } else if j == 5 {
            } else if j == 6 {
            } else if j == 7 {
            } else if j == 8 {
            } else if j == 9 {
            } else if j == 10 {
            } else if j == 11 {
            } else if j == 12 {
            } else if j == 13 {
            } else if j == 14 {
            } else if j == 15 {
            } else if j == 16 {
            } else if j == 17 {
            } else if j == 18 {
            } else if j == 19 {
            } else if j == 20 {
            } else if j == 21 {
            } else if j == 22 {
            } else if j == 23 {
            } else if j == 24 {
            } else if j == 25 {
            } else if j == 26 {
            }
        }
    } else if code == 0x1506 {
        reveal_strlit("ESP_ERR_OTA_ROLLBACK_INVALID_STATE");
        reveal_strlit("[ESP_ERR_OTA_ROLLBACK_INVALID_STATE]: Error if current active firmware is still marked in pending validation state (ESP_OTA_IMG_PENDING_VERIFY), essentially first boot of firmware image post upgrade and hence firmware upgrade is not possible");
        assert(spec_error_info(code).unwrap().subrange(0, spec_error_name(code).unwrap().len() + 4int)
            =~= seq!['['] + spec_error_name(code).unwrap() + seq![']', ':', ' ']);
        assert(ESP_IDF_ERROR_CODES@[49] == code);
        let name = spec_error_name(code).unwrap();
        assert(name.subrange(0, 4) =~= seq!['E', 'S', 'P', '_']);
        assert(name.subrange(0, 8) =~= seq!['E', 'S', 'P', '_', 'E', 'R', 'R', '_']);
        assert forall|j: int| 0 <= j < name.len() implies is_name_char(#[trigger] name[j]) by {
            if j == 0 {
            } else if j == 1 {
            } else if j == 2 {
            } else if j == 3 {
            } else if j == 4 {
            } else if j == 5 {
            } else if j == 6 {
            } else if j == 7 {
            } else if j == 8 {
            } else if j == 9 {
            } else if j == 10 {
            } else if j == 11 {
            } else if j == 12 {
            } else if j == 13 {
            } else if j == 14 {
            } else if j == 15 {
            } else if j == 16 {
            } else if j == 17 {
            } else if j == 18 {
            } else if j == 19 {
            } else if j == 20 {
            } else if j == 21 {
            } else if j == 22 {
            } else if j == 23 {
            } else if j == 24 {
            } else if j == 25 {
            } else if j == 26 {
            } else if j == 27 {
            } else if j == 28 {
            } else if j == 29 {
            } else if j == 30 {
            } else if j == 31 {
            } else if j == 32 {
            } else if j == 33 {
            }
        }
    } else if code == 0x1601 {
        reveal_strlit("ESP_OK_EFUSE_CNT");
        reveal_strlit("[ESP_OK_EFUSE_CNT]: OK the required number of bits is set.");
        assert(spec_error_info(code).unwrap().subrange(0, spec_error_name(code).unwrap().len() + 4int)
            =~= seq!['['] + spec_error_name(code).unwrap() + seq![']', ':', ' ']);
        assert(ESP_IDF_ERROR_CODES@[50] == code);
        let name = spec_error_name(code).unwrap();
        assert(name.subrange(0, 4) =~= seq!['E', 'S', 'P', '_']);
        assert forall|j: int| 0 <= j < name.len() implies is_name_char(#[trigger] name[j]) by {
            if j == 0 {
            } else if j == 1 {
            } else if j == 2 {
            } else if j == 3 {
            } else if j == 4 {
            } else if j == 5 {
            } else if j == 6 {
            } else if j == 7 {
            } else if j == 8 {
            } else if j == 9 {
            } else if j == 10 {
            } else if j == 11 {
            } else if j == 12 {
            } else if j == 13 {
            } else if j == 14 {
            } else if j == 15 {
            }
        }
    } else if code == 0x1602 {
        reveal_strlit("ESP_ERR_EFUSE_CNT_IS_FULL");
        reveal_strlit("[ESP_ERR_EFUSE_CNT_IS_FULL]: Error field is full.");
        assert(spec_error_info(code).unwrap().subrange(0, spec_error_name(code).unwrap().len() + 4int)
            =~= seq!['['] + spec_error_name(code).unwrap() + seq![']', ':', ' ']);
        assert(ESP_IDF_ERROR_CODES@[51] == code);
        let name = spec_error_name(code).unwrap();
        assert(name.subrange(0, 4) =~= seq!['E', 'S', 'P', '_']);
        assert(name.subrange(0, 8) =~= seq!['E', 'S', 'P', '_', 'E', 'R', 'R', '_']);
        assert forall|j: int| 0 <= j < name.len() implies is_name_char(#[trigger] name[j]) by {
            if j == 0 {
            } else if j == 1 {
            } else if j == 2 {
            } else if j == 3 {
            } else if j == 4 {
            } else if j == 5 {
            } else if j == 6 {
            } else if j == 7 {
            } else if j == 8 {
            } else if j == 9 {
            } else if j == 10 {
            } else if j == 11 {
            } else if j == 12 {
            } else if j == 13 {
            } else if j == 14 {
            } else if j == 15 {
            } else if j == 16 {
            } else if j == 17 {
            } else if j == 18 {
            } else if j == 19 {
            } else if j == 20 {
            } else if j == 21 {
            } else if j == 22 {
            } else if j == 23 {
            } else if j == 24 {
            }
        }
    } else if code == 0x1603 {
        reveal_strlit("ESP_ERR_EFUSE_REPEATED_PROG");
        reveal_strlit("[ESP_ERR_EFUSE_REPEATED_PROG]: Error repeated programming of programmed bits is strictly forbidden.");
        assert(spec_error_info(code).unwrap().subrange(0, spec_error_name(code).unwrap().len() + 4int)
            =~= seq!['['] + spec_error_name(code).unwrap() + seq![']', ':', ' ']);
        assert(ESP_IDF_ERROR_CODES@[52] == code);
        let name = spec_error_name(code).unwrap();
        assert(name.subrange(0, 4) =~= seq!['E', 'S', 'P', '_']);
        assert(name.subrange(0, 8) =~= seq!['E', 'S', 'P', '_', 'E', 'R', 'R', '_']);
        assert forall|j: int| 0 <= j < name.len() implies is_name_char(#[trigger] name[j]) by {
            if j == 0 {
            } else if j == 1 {
            } else if j == 2 {
            } else if j == 3 {
            } else if j == 4 {
            } else if j == 5 {
            } else if j == 6 {
            } else if j == 7 {
            } else if j == 8 {
            } else if j == 9 {
            } else if j == 10 {
            } else if j == 11 {
            } else if j == 12 {
            } else if j == 13 {
            } else if j == 14 {
            } else if j == 15 {
            } else if j == 16 {
            } else if j == 17 {
            } else if j == 18 {
            } else if j == 19 {
            } else if j == 20 {
            } else if j == 21 {
            } else if j == 22 {
            } else if j == 23 {
            } else if j == 24 {
            } else if j == 25 {
            } else if j == 26 {
            }
        }
    } else if code == 0x1604 {
        reveal_strlit("ESP_ERR_CODING");
        reveal_strlit("[ESP_ERR_CODING]: Error while a encoding operation.");
        assert(spec_error_info(code).unwrap().subrange(0, spec_error_name(code).unwrap().len() + 4int)
            =~= seq!['['] + spec_error_name(code).unwrap() + seq![']', ':', ' ']);
        assert(ESP_IDF_ERROR_CODES@[53] == code);
        let name = spec_error_name(code).unwrap();
        assert(name.subrange(0, 4) =~= seq!['E', 'S', 'P', '_']);
        assert(name.subrange(0, 8) =~= seq!['E', 'S', 'P', '_', 'E', 'R', 'R', '_']);
        assert forall|j: int| 0 <= j < name.len() implies is_name_char(#[trigger] name[j]) by {
            if j == 0 {
            } else if j == 1 {
            } else if j == 2 {
            } else if j == 3 {
            } else if j == 4 {
            } else if j == 5 {
            } else if j == 6 {
            } else if j == 7 {
            } else if j == 8 {
            } else if j == 9 {
            } else if j == 10 {
            } else if j == 11 {
            } else if j == 12 {
            } else if j == 13 {
            }
        }
    } else if code == 0x1605 {
        reveal_strlit("ESP_ERR_NOT_ENOUGH_UNUSED_KEY_BLOCKS");
        reveal_strlit("[ESP_ERR_NOT_ENOUGH_UNUSED_KEY_BLOCKS]: Error not enough unused key blocks available");
        assert(spec_error_info(code).unwrap().subrange(0, spec_error_name(code).unwrap().len() + 4int)
            =~= seq!['['] + spec_error_name(code).unwrap() + seq![']', ':', ' ']);
        assert(ESP_IDF_ERROR_CODES@[54] == code);
        let name = spec_error_name(code).unwrap();
        assert(name.subrange(0, 4) =~= seq!['E', 'S', 'P', '_']);
        assert(name.subrange(0, 8) =~= seq!['E', 'S', 'P', '_', 'E', 'R', 'R', '_']);
        assert forall|j: int| 0 <= j < name.len() implies is_name_char(#[trigger] name[j]) by {
            if j == 0 {
            } else if j == 1 {
            } else if j == 2 {
            } else if j == 3 {
            } else if j == 4 {
            } else if j == 5 {
            } else if j == 6 {
            } else if j == 7 {
            } else if j == 8 {
            } else if j == 9 {
            } else if j == 10 {
            } else if j == 11 {
            } else if j == 12 {
            } else if j == 13 {
            } else if j == 14 {
            } else if j == 15 {
            } else if j == 16 {
            } else if j == 17 {
            } else if j == 18 {
            } else if j == 19 {
            } else if j == 20 {
            } else if j == 21 {
            } else if j == 22 {
            } else if j == 23 {
            } else if j == 24 {
            } else if j == 25 {
            } else if j == 26 {
            } else if j == 27 {
            } else if j == 28 {
            } else if j == 29 {
            } else if j == 30 {
            } else if j == 31 {
            } else if j == 32 {
            } else if j == 33 {
            } else if j == 34 {
            } else if j == 35 {
            }
        }
    } else if code == 0x1606 {
        reveal_strlit("ESP_ERR_DAMAGED_READING");
        reveal_strlit("[ESP_ERR_DAMAGED_READING]: Error. Burn or reset was done during a reading operation leads to damage read data. This error is internal to the efuse component and not returned by any public API.");
        assert(spec_error_info(code).unwrap().subrange(0, spec_error_name(code).unwrap().len() + 4int)
            =~= seq!['['] + spec_error_name(code).unwrap() + seq![']', ':', ' ']);
        assert(ESP_IDF_ERROR_CODES@[55] == code);
        let name = spec_error_name(code).unwrap();
        assert(name.subrange(0, 4) =~= seq!['E', 'S', 'P', '_']);
        assert(name.subrange(0, 8) =~= seq!['E', 'S', 'P', '_', 'E', 'R', 'R', '_']);
        assert forall|j: int| 0 <= j < name.len() implies is_name_char(#[trigger] name[j]) by {
            if j == 0 {
            } else if j == 1 {
            } else if j == 2 {
            } else if j == 3 {
            } else if j == 4 {
            } else if j == 5 {
            } else if j == 6 {
            } else if j == 7 {
            } else if j == 8 {
            } else if j == 9 {
            } else if j == 10 {
            } else if j == 11 {
            } else if j == 12 {
            } else if j == 13 {
            } else if j == 14 {
            } else if j == 15 {
            } else if j == 16 {
            } else if j == 17 {
            } else if j == 18 {
            } else if j == 19 {
            } else if j == 20 {
            } else if j == 21 {
            } else if j == 22 {
            }
        }
    } else if code == 0x2001 {
        reveal_strlit("ESP_ERR_IMAGE_FLASH_FAIL");
        reveal_strlit("[ESP_ERR_IMAGE_FLASH_FAIL]: No further error description");
        assert(spec_error_info(code).unwrap().subrange(0, spec_error_name(code).unwrap().len() + 4int)
            =~= seq!['['] + spec_error_name(code).unwrap() + seq![']', ':', ' ']);
        assert(ESP_IDF_ERROR_CODES@[56] == code);
        let name = spec_error_name(code).unwrap();
        assert(name.subrange(0, 4) =~= seq!['E', 'S', 'P', '_']);
        assert(name.subrange(0, 8) =~= seq!['E', 'S', 'P', '_', 'E', 'R', 'R', '_']);
        assert forall|j: int| 0 <= j < name.len() implies is_name_char(#[trigger] name[j]) by {
            if j == 0 {
            } else if j == 1 {
            } else if j == 2 {
            } else if j == 3 {
            } else if j == 4 {
            } else if j == 5 {
            } else if j == 6 {
            } else if j == 7 {
            } else if j == 8 {
            } else if j == 9 {
            } else if j == 10 {
            } else if j == 11 {
            } else if j == 12 {
            } else if j == 13 {
            } else if j == 14 {
            } else if j == 15 {
            } else if j == 16 {
            } else if j == 17 {
            } else if j == 18 {
            } else if j == 19 {
            } else if j == 20 {
            } else if j == 21 {
            } else if j == 22 {
            } else if j == 23 {
            }
        }
    } else if code == 0x2002 {
        reveal_strlit("ESP_ERR_IMAGE_INVALID");
        reveal_strlit("[ESP_ERR_IMAGE_INVALID]: No further error description");
        assert(spec_error_info(code).unwrap().subrange(0, spec_error_name(code).unwrap().len() + 4int)
            =~= seq!['['] + spec_error_name(code).unwrap() + seq![']', ':', ' ']);
        assert(ESP_IDF_ERROR_CODES@[57] == code);
        let name = spec_error_name(code).unwrap();
        assert(name.subrange(0, 4) =~= seq!['E', 'S', 'P', '_']);
        assert(name.subrange(0, 8) =~= seq!['E', 'S', 'P', '_', 'E', 'R', 'R', '_']);
        assert forall|j: int| 0 <= j < name.len() implies is_name_char(#[trigger] name[j]) by {
            if j == 0 {
            } else if j == 1 {
            } else if j == 2 {
            } else if j == 3 {
            } else if j == 4 {
            } else if j == 5 {
            } else if j == 6 {
            } else if j == 7 {
            } else if j == 8 {
            } else if j == 9 {
            } else if j == 10 {
            } else if j == 11 {
            } else if j == 12 {
            } else if j == 13 {
            } else if j == 14 {
            } else if j == 15 {
            } else if j == 16 {
            } else if j == 17 {
            } else if j == 18 {
            } else if j == 19 {
            } else if j == 20 {
            }
        }
    } else if code == 0x3001 {
        reveal_strlit("ESP_ERR_WIFI_NOT_INIT");
        reveal_strlit("[ESP_ERR_WIFI_NOT_INIT]: WiFi driver was not installed by esp_wifi_init");
        assert(spec_error_info(code).unwrap().subrange(0, spec_error_name(code).unwrap().len() + 4int)
            =~= seq!['['] + spec_error_name(code).unwrap() + seq![']', ':', ' ']);
        assert(ESP_IDF_ERROR_CODES@[58] == code);
        let name = spec_error_name(code).unwrap();
        assert(name.subrange(0, 4) =~= seq!['E', 'S', 'P', '_']);
        assert(name.subrange(0, 8) =~= seq!['E', 'S', 'P', '_', 'E', 'R', 'R', '_']);
        assert forall|j: int| 0 <= j < name.len() implies is_name_char(#[trigger] name[j]) by {
            if j == 0 {
            } else if j == 1 {
            } else if j == 2 {
            } else if j == 3 {
            } else if j == 4 {
            } else if j == 5 {
            } else if j == 6 {
            } else if j == 7 {
            } else if j == 8 {
            } else if j == 9 {
            } else if j == 10 {
            } else if j == 11 {
            } else if j == 12 {
            } else if j == 13 {
            } else if j == 14 {
            } else if j == 15 {
            } else if j == 16 {
            } else if j == 17 {
            } else if j == 18 {
            } else if j == 19 {
            } else if j == 20 {
            }
        }
    } else if code == 0x3002 {
        reveal_strlit("ESP_ERR_WIFI_NOT_STARTED");
        reveal_strlit("[ESP_ERR_WIFI_NOT_STARTED]: WiFi driver was not started by esp_wifi_start");
        assert(spec_error_info(code).unwrap().subrange(0, spec_error_name(code).unwrap().len() + 4int)
            =~= seq!['['] + spec_error_name(code).unwrap() + seq![']', ':', ' ']);
        assert(ESP_IDF_ERROR_CODES@[59] == code);
        let name = spec_error_name(code).unwrap();
        assert(name.subrange(0, 4) =~= seq!['E', 'S', 'P', '_']);
        assert(name.subrange(0, 8) =~= seq!['E', 'S', 'P', '_', 'E', 'R', 'R', '_']);
        assert forall|j: int| 0 <= j < name.len() implies is_name_char(#[trigger] name[j]) by {
            if j == 0 {
            } else if j == 1 {
            } else if j == 2 {
            } else if j == 3 {
            } else if j == 4 {
            } else if j == 5 {
            } else if j == 6 {
            } else if j == 7 {
            } else if j == 8 {
            } else if j == 9 {
            } else if j == 10 {
            } else if j == 11 {
            } else if j == 12 {
            } else if j == 13 {
            } else if j == 14 {
            } else if j == 15 {
            } else if j == 16 {
            } else if j == 17 {
            } else if j == 18 {
            } else if j == 19 {
            } else if j == 20 {
            } else if j == 21 {
            } else if j == 22 {
            } else if j == 23 {
            }
        }
    } else if code == 0x3003 {
        reveal_strlit("ESP_ERR_WIFI_NOT_STOPPED");
        reveal_strlit("[ESP_ERR_WIFI_NOT_STOPPED]: WiFi driver was not stopped by esp_wifi_stop");
        assert(spec_error_info(code).unwrap().subrange(0, spec_error_name(code).unwrap().len() + 4int)
            =~= seq!['['] + spec_error_name(code).unwrap() + seq![']', ':', ' ']);
        assert(ESP_IDF_ERROR_CODES@[60] == code);
        let name = spec_error_name(code).unwrap();
        assert(name.subrange(0, 4) =~= seq!['E', 'S', 'P', '_']);
        assert(name.subrange(0, 8) =~= seq!['E', 'S', 'P', '_', 'E', 'R', 'R', '_']);
        assert forall|j: int| 0 <= j < name.len() implies is_name_char(#[trigger] name[j]) by {
            if j == 0 {
            } else if j == 1 {
            } else if j == 2 {
            } else if j == 3 {
            } else if j == 4 {
            } else if j == 5 {
            } else if j == 6 {
            } else if j == 7 {
            } else if j == 8 {
            } else if j == 9 {
            } else if j == 10 {
            } else if j == 11 {
            } else if j == 12 {
            } else if j == 13 {
            } else if j == 14 {
            } else if j == 15 {
            } else if j == 16 {
            } else if j == 17 {
            } else if j == 18 {
            } else if j == 19 {
            } else if j == 20 {
            } else if j == 21 {
            } else if j == 22 {
            } else if j == 23 {
            }
        }
    } else if code == 0x3004 {
        reveal_strlit("ESP_ERR_WIFI_IF");
        reveal_strlit("[ESP_ERR_WIFI_IF]: WiFi interface error");
        assert(spec_error_info(code).unwrap().subrange(0, spec_error_name(code).unwrap().len() + 4int)
            =~= seq!['['] + spec_error_name(code).unwrap() + seq![']', ':', ' ']);
        assert(ESP_IDF_ERROR_CODES@[61] == code);
        let name = spec_error_name(code).unwrap();
        assert(name.subrange(0, 4) =~= seq!['E', 'S', 'P', '_']);
        assert(name.subrange(0, 8) =~= seq!['E', 'S', 'P', '_', 'E', 'R', 'R', '_']);
        assert forall|j: int| 0 <= j < name.len() implies is_name_char(#[trigger] name[j]) by {
            if j == 0 {
            } else if j == 1 {
            } else if j == 2 {
            } else if j == 3 {
            } else if j == 4 {
            } else if j == 5 {
            } else if j == 6 {
            } else if j == 7 {
            } else if j == 8 {
            } else if j == 9 {
            } else if j == 10 {
            } else if j == 11 {
            } else if j == 12 {
            } else if j == 13 {
            } else if j == 14 {
            }
        }
    } else if code == 0x3005 {
        reveal_strlit("ESP_ERR_WIFI_MODE");
        reveal_strlit("[ESP_ERR_WIFI_MODE]: WiFi mode error");
        assert(spec_error_info(code).unwrap().subrange(0, spec_error_name(code).unwrap().len() + 4int)
            =~= seq!['['] + spec_error_name(code).unwrap() + seq![']', ':', ' ']);
        assert(ESP_IDF_ERROR_CODES@[62] == code);
        let name = spec_error_name(code).unwrap();
        assert(name.subrange(0, 4) =~= seq!['E', 'S', 'P', '_']);
        assert(name.subrange(0, 8) =~= seq!['E', 'S', 'P', '_', 'E', 'R', 'R', '_']);
        assert forall|j: int| 0 <= j < name.len() implies is_name_char(#[trigger] name[j]) by {
            if j == 0 {
            } else if j == 1 {
            } else if j == 2 {
            } else if j == 3 {
            } else if j == 4 {
            } else if j == 5 {
            } else if j == 6 {
            } else if j == 7 {
            } else if j == 8 {
            } else if j == 9 {
            } else if j == 10 {
            } else if j == 11 {
            } else if j == 12 {
            } else if j == 13 {
            } else if j == 14 {
            } else if j == 15 {
            } else if j == 16 {
            }
        }
    } else if code == 0x3006 {
        reveal_strlit("ESP_ERR_WIFI_STATE");
        reveal_strlit("[ESP_ERR_WIFI_STATE]: WiFi internal state error");
        assert(spec_error_info(code).unwrap().subrange(0, spec_error_name(code).unwrap().len() + 4int)
            =~= seq!['['] + spec_error_name(code).unwrap() + seq![']', ':', ' ']);
        assert(ESP_IDF_ERROR_CODES@[63] == code);
        let name = spec_error_name(code).unwrap();
        assert(name.subrange(0, 4) =~= seq!['E', 'S', 'P', '_']);
        assert(name.subrange(0, 8) =~= seq!['E', 'S', 'P', '_', 'E', 'R', 'R', '_']);
        assert forall|j: int| 0 <= j < name.len() implies is_name_char(#[trigger] name[j]) by {
            if j == 0 {
            } else if j == 1 {
            } else if j == 2 {
            } else if j == 3 {
            } else if j == 4 {
            } else if j == 5 {
            } else if j == 6 {
            } else if j == 7 {
            } else if j == 8 {
            } else if j == 9 {
            } else if j == 10 {
            } else if j == 11 {
            } else if j == 12 {
            } else if j == 13 {
            } else if j == 14 {
            } else if j == 15 {
            } else if j == 16 {
            } else if j == 17 {
            }
        }
    }
}

/// Entries 48 to 63 of `ESP_IDF_ERROR_CODES` are known codes, each below the next.
proof fn lemma_table_indices_3(i: int)
    requires
        48 <= i < 64,
    ensures
        is_error_code(ESP_IDF_ERROR_CODES@[i]),
        ESP_IDF_ERROR_CODES@[i] < ESP_IDF_ERROR_CODES@[i + 1],
{
    if i == 48 {
        assert(ESP_IDF_ERROR_CODES@[i] == 0x1505);
        assert(ESP_IDF_ERROR_CODES@[i + 1] == 0x1506);
    } else if i == 49 {
        assert(ESP_IDF_ERROR_CODES@[i] == 0x1506);
        assert(ESP_IDF_ERROR_CODES@[i + 1] == 0x1601);
    } else if i == 50 {
        assert(ESP_IDF_ERROR_CODES@[i] == 0x1601);
        assert(ESP_IDF_ERROR_CODES@[i + 1] == 0x1602);
    } else if i == 51 {
        assert(ESP_IDF_ERROR_CODES@[i] == 0x1602);
        assert(ESP_IDF_ERROR_CODES@[i + 1] == 0x1603);
    } else if i == 52 {
        assert(ESP_IDF_ERROR_CODES@[i] == 0x1603);
        assert(ESP_IDF_ERROR_CODES@[i + 1] == 0x1604);
    } else if i == 53 {
        assert(ESP_IDF_ERROR_CODES@[i] == 0x1604);
        assert(ESP_IDF_ERROR_CODES@[i + 1] == 0x1605);
    } else if i == 54 {
        assert(ESP_IDF_ERROR_CODES@[i] == 0x1605);
        assert(ESP_IDF_ERROR_CODES@[i + 1] == 0x1606);
    } else if i == 55 {
        assert(ESP_IDF_ERROR_CODES@[i] == 0x1606);
        assert(ESP_IDF_ERROR_CODES@[i + 1] == 0x2001);
    } else if i == 56 {
        assert(ESP_IDF_ERROR_CODES@[i] == 0x2001);
        assert(ESP_IDF_ERROR_CODES@[i + 1] == 0x2002);
    } else if i == 57 {
        assert(ESP_IDF_ERROR_CODES@[i] == 0x2002);
        assert(ESP_IDF_ERROR_CODES@[i + 1] == 0x3001);
    } else if i == 58 {
        assert(ESP_IDF_ERROR_CODES@[i] == 0x3001);
        assert(ESP_IDF_ERROR_CODES@[i + 1] == 0x3002);
    } else if i == 59 {
        assert(ESP_IDF_ERROR_CODES@[i] == 0x3002);
        assert(ESP_IDF_ERROR_CODES@[i + 1] == 0x3003);
    } else if i == 60 {
        assert(ESP_IDF_ERROR_CODES@[i] == 0x3003);
        assert(ESP_IDF_ERROR_CODES@[i + 1] == 0x3004);
    } else if i == 61 {
        assert(ESP_IDF_ERROR_CODES@[i] == 0x3004);
        assert(ESP_IDF_ERROR_CODES@[i + 1] == 0x3005);
    } else if i == 62 {
        assert(ESP_IDF_ERROR_CODES@[i] == 0x3005);
        assert(ESP_IDF_ERROR_CODES@[i + 1] == 0x3006);
    } else if i == 63 {
        assert(ESP_IDF_ERROR_CODES@[i] == 0x3006);
        assert(ESP_IDF_ERROR_CODES@[i + 1] == 0x3007);
    }
}

/// The table facts for every code from `0x3007` to `0x3018`.
proof fn lemma_table_codes_4(code: i32)
    requires
        0x3007 <= code <= 0x3018,
    ensures
        table_facts(code),
{
    if code == 0x3007 {
        reveal_strlit("ESP_ERR_WIFI_CONN");
        reveal_strlit("[ESP_ERR_WIFI_CONN]: WiFi internal control block of station or soft-AP error");
        assert(spec_error_info(code).unwrap().subrange(0, spec_error_name(code).unwrap().len() + 4int)
            =~= seq!['['] + spec_error_name(code).unwrap() + seq![']', ':', ' ']);
        assert(ESP_IDF_ERROR_CODES@[64] == code);
        let name = spec_error_name(code).unwrap();
        assert(name.subrange(0, 4) =~= seq!['E', 'S', 'P', '_']);
        assert(name.subrange(0, 8) =~= seq!['E', 'S', 'P', '_', 'E', 'R', 'R', '_']);
        assert forall|j: int| 0 <= j < name.len() implies is_name_char(#[trigger] name[j]) by {
            if j == 0 {
            } else if j == 1 {
            } else if j == 2 {
            } else if j == 3 {
            } else if j == 4 {
            } else if j == 5 {
            } else if j == 6 {
            } else if j == 7 {
            } else if j == 8 {
            } else if j == 9 {
            } else if j == 10 {
            } else if j == 11 {
            } else if j == 12 {
            } else if j == 13 {
            } else if j == 14 {
            } else if j == 15 {
            } else if j == 16 {
            }
        }
    } else if code == 0x3008 {
        reveal_strlit("ESP_ERR_WIFI_NVS");
        reveal_strlit("[ESP_ERR_WIFI_NVS]: WiFi internal NVS module error");
        assert(spec_error_info(code).unwrap().subrange(0, spec_error_name(code).unwrap().len() + 4int)
            =~= seq!['['] + spec_error_name(code).unwrap() + seq![']', ':', ' ']);
        assert(ESP_IDF_ERROR_CODES@[65] == code);
        let name = spec_error_name(code).unwrap();
        assert(name.subrange(0, 4) =~= seq!['E', 'S', 'P', '_']);
        assert(name.subrange(0, 8) =~= seq!['E', 'S', 'P', '_', 'E', 'R', 'R', '_']);
        assert forall|j: int| 0 <= j < name.len() implies is_name_char(#[trigger] name[j]) by {
            if j == 0 {
            } else if j == 1 {
            } else if j == 2 {
            } else if j == 3 {
            } else if j == 4 {
            } else if j == 5 {
            } else if j == 6 {
            } else if j == 7 {
            } else if j == 8 {
            } else if j == 9 {
            } else if j == 10 {
            } else if j == 11 {
            } else if j == 12 {
            } else if j == 13 {
            } else if j == 14 {
            } else if j == 15 {
            }
        }
    } else if code == 0x3009 {
        reveal_strlit("ESP_ERR_WIFI_MAC");
        reveal_strlit("[ESP_ERR_WIFI_MAC]: MAC address is invalid");
        assert(spec_error_info(code).unwrap().subrange(0, spec_error_name(code).unwrap().len() + 4int)
            =~= seq!['['] + spec_error_name(code).unwrap() + seq![']', ':', ' ']);
        assert(ESP_IDF_ERROR_CODES@[66] == code);
        let name = spec_error_name(code).unwrap();
        assert(name.subrange(0, 4) =~= seq!['E', 'S', 'P', '_']);
        assert(name.subrange(0, 8) =~= seq!['E', 'S', 'P', '_', 'E', 'R', 'R', '_']);
        assert forall|j: int| 0 <= j < name.len() implies is_name_char(#[trigger] name[j]) by {
            if j == 0 {
            } else if j == 1 {
            } else if j == 2 {
            } else if j == 3 {
            } else if j == 4 {
            } else if j == 5 {
            } else if j == 6 {
            } else if j == 7 {
            } else if j == 8 {
            } else if j == 9 {
            } else if j == 10 {
            } else if j == 11 {
            } else if j == 12 {
            } else if j == 13 {
            } else if j == 14 {
            } else if j == 15 {
            }
        }
    } else if code == 0x300a {
        reveal_strlit("ESP_ERR_WIFI_SSID");
        reveal_strlit("[ESP_ERR_WIFI_SSID]: SSID is invalid");
        assert(spec_error_info(code).unwrap().subrange(0, spec_error_name(code).unwrap().len() + 4int)
            =~= seq!['['] + spec_error_name(code).unwrap() + seq![']', ':', ' ']);
        assert(ESP_IDF_ERROR_CODES@[67] == code);
        let name = spec_error_name(code).unwrap();
        assert(name.subrange(0, 4) =~= seq!['E', 'S', 'P', '_']);
        assert(name.subrange(0, 8) =~= seq!['E', 'S', 'P', '_', 'E', 'R', 'R', '_']);
        assert forall|j: int| 0 <= j < name.len() implies is_name_char(#[trigger] name[j]) by {
            if j == 0 {
            } else if j == 1 {
            } else if j == 2 {
            } else if j == 3 {
            } else if j == 4 {
            } else if j == 5 {
            } else if j == 6 {
            } else if j == 7 {
            } else if j == 8 {
            } else if j == 9 {
            } else if j == 10 {
            } else if j == 11 {
            } else if j == 12 {
            } else if j == 13 {
            } else if j == 14 {
            } else if j == 15 {
            } else if j == 16 {
            }
        }
    } else if code == 0x300b {
        reveal_strlit("ESP_ERR_WIFI_PASSWORD");
        reveal_strlit("[ESP_ERR_WIFI_PASSWORD]: Password is invalid");
        assert(spec_error_info(code).unwrap().subrange(0, spec_error_name(code).unwrap().len() + 4int)
            =~= seq!['['] + spec_error_name(code).unwrap() + seq![']', ':', ' ']);
        assert(ESP_IDF_ERROR_CODES@[68] == code);
        let name = spec_error_name(code).unwrap();
        assert(name.subrange(0, 4) =~= seq!['E', 'S', 'P', '_']);
        assert(name.subrange(0, 8) =~= seq!['E', 'S', 'P', '_', 'E', 'R', 'R', '_']);
        assert forall|j: int| 0 <= j < name.len() implies is_name_char(#[trigger] name[j]) by {
            if j == 0 {
            } else if j == 1 {
            } else if j == 2 {
            } else if j == 3 {
            } else if j == 4 {
            } else if j == 5 {
            } else if j == 6 {
            } else if j == 7 {
            } else if j == 8 {
            } else if j == 9 {
            } else if j == 10 {
            } else if j == 11 {
            } else if j == 12 {
            } else if j == 13 {
            } else if j == 14 {
            } else if j == 15 {
            } else if j == 16 {
            } else if j == 17 {
            } else if j == 18 {
            } else if j == 19 {
            } else if j == 20 {
            }
        }
    } else if code == 0x300c {
        reveal_strlit("ESP_ERR_WIFI_TIMEOUT");
        reveal_strlit("[ESP_ERR_WIFI_TIMEOUT]: Timeout error");
        assert(spec_error_info(code).unwrap().subrange(0, spec_error_name(code).unwrap().len() + 4int)
            =~= seq!['['] + spec_error_name(code).unwrap() + seq![']', ':', ' ']);
        assert(ESP_IDF_ERROR_CODES@[69] == code);
        let name = spec_error_name(code).unwrap();
        assert(name.subrange(0, 4) =~= seq!['E', 'S', 'P', '_']);
        assert(name.subrange(0, 8) =~= seq!['E', 'S', 'P', '_', 'E', 'R', 'R', '_']);
        assert forall|j: int| 0 <= j < name.len() implies is_name_char(#[trigger] name[j]) by {
            if j == 0 {
            } else if j == 1 {
            } else if j == 2 {
            } else if j == 3 {
            } else if j == 4 {
            } else if j == 5 {
            } else if j == 6 {
            } else if j == 7 {
            } else if j == 8 {
            } else if j == 9 {
            } else if j == 10 {
            } else if j == 11 {
            } else if j == 12 {
            } else if j == 13 {
            } else if j == 14 {
            } else if j == 15 {
            } else if j == 16 {
            } else if j == 17 {
            } else if j == 18 {
            } else if j == 19 {
            }
        }
    } else if code == 0x300d {
        reveal_strlit("ESP_ERR_WIFI_WAKE_FAIL");
        reveal_strlit("[ESP_ERR_WIFI_WAKE_FAIL]: WiFi is in sleep state(RF closed) and wakeup fail");
        assert(spec_error_info(code).unwrap().subrange(0, spec_error_name(code).unwrap().len() + 4int)
            =~= seq!['['] + spec_error_name(code).unwrap() + seq![']', ':', ' ']);
        assert(ESP_IDF_ERROR_CODES@[70] == code);
        let name = spec_error_name(code).unwrap();
        assert(name.subrange(0, 4) =~= seq!['E', 'S', 'P', '_']);
        assert(name.subrange(0, 8) =~= seq!['E', 'S', 'P', '_', 'E', 'R', 'R', '_']);
        assert forall|j: int| 0 <= j < name.len() implies is_name_char(#[trigger] name[j]) by {
            if j == 0 {
            } else if j == 1 {
            } else if j == 2 {
            } else if j == 3 {
            } else if j == 4 {
            } else if j == 5 {
            } else if j == 6 {
            } else if j == 7 {
            } else if j == 8 {
            } else if j == 9 {
            } else if j == 10 {
            } else if j == 11 {
            } else if j == 12 {
            } else if j == 13 {
            } else if j == 14 {
            } else if j == 15 {
            } else if j == 16 {
            } else if j == 17 {
            } else if j == 18 {
            } else if j == 19 {
            } else if j == 20 {
            } else if j == 21 {
            }
        }
    } else if code == 0x300e {
        reveal_strlit("ESP_ERR_WIFI_WOULD_BLOCK");
        reveal_strlit("[ESP_ERR_WIFI_WOULD_BLOCK]: The caller would block");
        assert(spec_error_info(code).unwrap().subrange(0, spec_error_name(code).unwrap().len() + 4int)
            =~= seq!['['] + spec_error_name(code).unwrap() + seq![']', ':', ' ']);
        assert(ESP_IDF_ERROR_CODES@[71] == code);
        let name = spec_error_name(code).unwrap();
        assert(name.subrange(0, 4) =~= seq!['E', 'S', 'P', '_']);
        assert(name.subrange(0, 8) =~= seq!['E', 'S', 'P', '_', 'E', 'R', 'R', '_']);
        assert forall|j: int| 0 <= j < name.len() implies is_name_char(#[trigger] name[j]) by {
            if j == 0 {
            } else if j == 1 {
            } else if j == 2 {
            } else if j == 3 {
            } else if j == 4 {
            } else if j == 5 {
            } else if j == 6 {
            } else if j == 7 {
            } else if j == 8 {
            } else if j == 9 {
            } else if j == 10 {
            } else if j == 11 {
            } else if j == 12 {
            } else if j == 13 {
            } else if j == 14 {
            } else if j == 15 {
            } else if j == 16 {
            } else if j == 17 {
            } else if j == 18 {
            } else if j == 19 {
            } else if j == 20 {
            } else if j == 21 {
            } else if j == 22 {
            } else if j == 23 {
            }
        }
    } else if code == 0x300f {
        reveal_strlit("ESP_ERR_WIFI_NOT_CONNECT");
        reveal_strlit("[ESP_ERR_WIFI_NOT_CONNECT]: Station still in disconnect status");
        assert(spec_error_info(code).unwrap().subrange(0, spec_error_name(code).unwrap().len() + 4int)
            =~= seq!['['] + spec_error_name(code).unwrap() + seq![']', ':', ' ']);
        assert(ESP_IDF_ERROR_CODES@[72] == code);
        let name = spec_error_name(code).unwrap();
        assert(name.subrange(0, 4) =~= seq!['E', 'S', 'P', '_']);
        assert(name.subrange(0, 8) =~= seq!['E', 'S', 'P', '_', 'E', 'R', 'R', '_']);
        assert forall|j: int| 0 <= j < name.len() implies is_name_char(#[trigger] name[j]) by {
            if j == 0 {
            } else if j == 1 {
            } else if j == 2 {
            } else if j == 3 {
            } else if j == 4 {
            } else if j == 5 {
            } else if j == 6 {
            } else if j == 7 {
            } else if j == 8 {
            } else if j == 9 {
            } else if j == 10 {
            } else if j == 11 {
            } else if j == 12 {
            } else if j == 13 {
            } else if j == 14 {
            } else if j == 15 {
            } else if j == 16 {
            } else if j == 17 {
            } else if j == 18 {
            } else if j == 19 {
            } else if j == 20 {
            } else if j == 21 {
            } else if j == 22 {
            } else if j == 23 {
            }
        }
    } else if code == 0x3012 {
        reveal_strlit("ESP_ERR_WIFI_POST");
        reveal_strlit("[ESP_ERR_WIFI_POST]: Failed to post the event to WiFi task");
        assert(spec_error_info(code).unwrap().subrange(0, spec_error_name(code).unwrap().len() + 4int)
            =~= seq!['['] + spec_error_name(code).unwrap() + seq![']', ':', ' ']);
        assert(ESP_IDF_ERROR_CODES@[73] == code);
        let name = spec_error_name(code).unwrap();
        assert(name.subrange(0, 4) =~= seq!['E', 'S', 'P', '_']);
        assert(name.subrange(0, 8) =~= seq!['E', 'S', 'P', '_', 'E', 'R', 'R', '_']);
        assert forall|j: int| 0 <= j < name.len() implies is_name_char(#[trigger] name[j]) by {
            if j == 0 {
            } else if j == 1 {
            } else if j == 2 {
            } else if j == 3 {
            } else if j == 4 {
            } else if j == 5 {
            } else if j == 6 {
            } else if j == 7 {
            } else if j == 8 {
            } else if j == 9 {
            } else if j == 10 {
            } else if j == 11 {
            } else if j == 12 {
            } else if j == 13 {
            } else if j == 14 {
            } else if j == 15 {
            } else if j == 16 {
            }
        }
    } else if code == 0x3013 {
        reveal_strlit("ESP_ERR_WIFI_INIT_STATE");
        reveal_strlit("[ESP_ERR_WIFI_INIT_STATE]: Invalid WiFi state when init/deinit is called");
        assert(spec_error_info(code).unwrap().subrange(0, spec_error_name(code).unwrap().len() + 4int)
            =~= seq!['['] + spec_error_name(code).unwrap() + seq![']', ':', ' ']);
        assert(ESP_IDF_ERROR_CODES@[74] == code);
        let name = spec_error_name(code).unwrap();
        assert(name.subrange(0, 4) =~= seq!['E', 'S', 'P', '_']);
        assert(name.subrange(0, 8) =~= seq!['E', 'S', 'P', '_', 'E', 'R', 'R', '_']);
        assert forall|j: int| 0 <= j < name.len() implies is_name_char(#[trigger] name[j]) by {
            if j == 0 {
            } else if j == 1 {
            } else if j == 2 {
            } else if j == 3 {
            } else if j == 4 {
            } else if j == 5 {
            } else if j == 6 {
            } else if j == 7 {
            } else if j == 8 {
            } else if j == 9 {
            } else if j == 10 {
            } else if j == 11 {
            } else if j == 12 {
            } else if j == 13 {
            } else if j == 14 {
            } else if j == 15 {
            } else if j == 16 {
            } else if j == 17 {
            } else if j == 18 {
            } else if j == 19 {
            } else if j == 20 {
            } else if j == 21 {
            } else if j == 22 {
            }
        }
    } else if code == 0x3014 {
        reveal_strlit("ESP_ERR_WIFI_STOP_STATE");
        reveal_strlit("[ESP_ERR_WIFI_STOP_STATE]: Returned when WiFi is stopping");
        assert(spec_error_info(code).unwrap().subrange(0, spec_error_name(code).unwrap().len() + 4int)
            =~= seq!['['] + spec_error_name(code).unwrap() + seq![']', ':', ' ']);
        assert(ESP_IDF_ERROR_CODES@[75] == code);
        let name = spec_error_name(code).unwrap();
        assert(name.subrange(0, 4) =~= seq!['E', 'S', 'P', '_']);
        assert(name.subrange(0, 8) =~= seq!['E', 'S', 'P', '_', 'E', 'R', 'R', '_']);
        assert forall|j: int| 0 <= j < name.len() implies is_name_char(#[trigger] name[j]) by {
            if j == 0 {
            } else if j == 1 {
            } else if j == 2 {
            } else if j == 3 {
            } else if j == 4 {
            } else if j == 5 {
            } else if j == 6 {
            } else if j == 7 {
            } else if j == 8 {
            } else if j == 9 {
            } else if j == 10 {
            } else if j == 11 {
            } else if j == 12 {
            } else if j == 13 {
            } else if j == 14 {
            } else if j == 15 {
            } else if j == 16 {
            } else if j == 17 {
            } else if j == 18 {
            } else if j == 19 {
            } else if j == 20 {
            } else if j == 21 {
            } else if j == 22 {
            }
        }
    } else if code == 0x3015 {
        reveal_strlit("ESP_ERR_WIFI_NOT_ASSOC");
        reveal_strlit("[ESP_ERR_WIFI_NOT_ASSOC]: The WiFi connection is not associated");
        assert(spec_error_info(code).unwrap().subrange(0, spec_error_name(code).unwrap().len() + 4int)
            =~= seq!['['] + spec_error_name(code).unwrap() + seq![']', ':', ' ']);
        assert(ESP_IDF_ERROR_CODES@[76] == code);
        let name = spec_error_name(code).unwrap();
        assert(name.subrange(0, 4) =~= seq!['E', 'S', 'P', '_']);
        assert(name.subrange(0, 8) =~= seq!['E', 'S', 'P', '_', 'E', 'R', 'R', '_']);
        assert forall|j: int| 0 <= j < name.len() implies is_name_char(#[trigger] name[j]) by {
            if j == 0 {
            } else if j == 1 {
            } else if j == 2 {
            } else if j == 3 {
            } else if j == 4 {
            } else if j == 5 {
            } else if j == 6 {
            } else if j == 7 {
            } else if j == 8 {
            } else if j == 9 {
            } else if j == 10 {
            } else if j == 11 {
            } else if j == 12 {
            } else if j == 13 {
            } else if j == 14 {
            } else if j == 15 {
            } else if j == 16 {
            } else if j == 17 {
            } else if j == 18 {
            } else if j == 19 {
            } else if j == 20 {
            } else if j == 21 {
            }
        }
    } else if code == 0x3016 {
        reveal_strlit("ESP_ERR_WIFI_TX_DISALLOW");
        reveal_strlit("[ESP_ERR_WIFI_TX_DISALLOW]: The WiFi TX is disallowed");
        assert(spec_error_info(code).unwrap().subrange(0, spec_error_name(code).unwrap().len() + 4int)
            =~= seq!['['] + spec_error_name(code).unwrap() + seq![']', ':', ' ']);
        assert(ESP_IDF_ERROR_CODES@[77] == code);
        let name = spec_error_name(code).unwrap();
        assert(name.subrange(0, 4) =~= seq!['E', 'S', 'P', '_']);
        assert(name.subrange(0, 8) =~= seq!['E', 'S', 'P', '_', 'E', 'R', 'R', '_']);
        assert forall|j: int| 0 <= j < name.len() implies is_name_char(#[trigger] name[j]) by {
            if j == 0 {
            } else if j == 1 {
            } else if j == 2 {
            } else if j == 3 {
            } else if j == 4 {
            } else if j == 5 {
            } else if j == 6 {
            } else if j == 7 {
            } else if j == 8 {
            } else if j == 9 {
            } else if j == 10 {
            } else if j == 11 {
            } else if j == 12 {
            } else if j == 13 {
            } else if j == 14 {
            } else if j == 15 {
            } else if j == 16 {
            } else if j == 17 {
            } else if j == 18 {
            } else if j == 19 {
            } else if j == 20 {
            } else if j == 21 {
            } else if j == 22 {
            } else if j == 23 {
            }
        }
    } else if code == 0x3017 {
        reveal_strlit("ESP_ERR_WIFI_TWT_FULL");
        reveal_strlit("[ESP_ERR_WIFI_TWT_FULL]: no available flow id");
        assert(spec_error_info(code).unwrap().subrange(0, spec_error_name(code).unwrap().len() + 4int)
            =~= seq!['['] + spec_error_name(code).unwrap() + seq![']', ':', ' ']);
        assert(ESP_IDF_ERROR_CODES@[78] == code);
        let name = spec_error_name(code).unwrap();
        assert(name.subrange(0, 4) =~= seq!['E', 'S', 'P', '_']);
        assert(name.subrange(0, 8) =~= seq!['E', 'S', 'P', '_', 'E', 'R', 'R', '_']);
        assert forall|j: int| 0 <= j < name.len() implies is_name_char(#[trigger] name[j]) by {
            if j == 0 {
            } else if j == 1 {
            } else if j == 2 {
            } else if j == 3 {
            } else if j == 4 {
            } else if j == 5 {
            } else if j == 6 {
            } else if j == 7 {
            } else if j == 8 {
            } else if j == 9 {
            } else if j == 10 {
            } else if j == 11 {
            } else if j == 12 {
            } else if j == 13 {
            } else if j == 14 {
            } else if j == 15 {
            } else if j == 16 {
            } else if j == 17 {
            } else if j == 18 {
            } else if j == 19 {
            } else if j == 20 {
            }
        }
    } else if code == 0x3018 {
        reveal_strlit("ESP_ERR_WIFI_TWT_SETUP_TIMEOUT");
        reveal_strlit("[ESP_ERR_WIFI_TWT_SETUP_TIMEOUT]: Timeout of receiving twt setup response frame, timeout times can be set during twt setup");
        assert(spec_error_info(code).unwrap().subrange(0, spec_error_name(code).unwrap().len() + 4int)
            =~= seq!['['] + spec_error_name(code).unwrap() + seq![']', ':', ' ']);
        assert(ESP_IDF_ERROR_CODES@[79] == code);
        let name = spec_error_name(code).unwrap();
        assert(name.subrange(0, 4) =~= seq!['E', 'S', 'P', '_']);
        assert(name.subrange(0, 8) =~= seq!['E', 'S', 'P', '_', 'E', 'R', 'R', '_']);
        assert forall|j: int| 0 <= j < name.len() implies is_name_char(#[trigger] name[j]) by {
            if j == 0 {
            } else if j == 1 {
            } else if j == 2 {
            } else if j == 3 {
            } else if j == 4 {
            } else if j == 5 {
            } else if j == 6 {
            } else if j == 7 {
            } else if j == 8 {
            } else if j == 9 {
            } else if j == 10 {
            } else if j == 11 {
            } else if j == 12 {
            } else if j == 13 {
            } else if j == 14 {
            } else if j == 15 {
            } else if j == 16 {
            } else if j == 17 {
            } else if j == 18 {
            } else if j == 19 {
            } else if j == 20 {
            } else if j == 21 {
            } else if j == 22 {
            } else if j == 23 {
            } else if j == 24 {
            } else if j == 25 {
            } else if j == 26 {
            } else if j == 27 {
            } else if j == 28 {
            } else if j == 29 {
            }
        }
    }
}

/// Entries 64 to 79 of `ESP_IDF_ERROR_CODES` are known codes, each below the next.
proof fn lemma_table_indices_4(i: int)
    requires
        64 <= i < 80,
    ensures
        is_error_code(ESP_IDF_ERROR_CODES@[i]),
        ESP_IDF_ERROR_CODES@[i] < ESP_IDF_ERROR_CODES@[i + 1],
{
    if i == 64 {
        assert(ESP_IDF_ERROR_CODES@[i] == 0x3007);
        assert(ESP_IDF_ERROR_CODES@[i + 1] == 0x3008);
    } else if i == 65 {
        assert(ESP_IDF_ERROR_CODES@[i] == 0x3008);
        assert(ESP_IDF_ERROR_CODES@[i + 1] == 0x3009);
    } else if i == 66 {
        assert(ESP_IDF_ERROR_CODES@[i] == 0x3009);
        assert(ESP_IDF_ERROR_CODES@[i + 1] == 0x300a);
    } else if i == 67 {
        assert(ESP_IDF_ERROR_CODES@[i] == 0x300a);
        assert(ESP_IDF_ERROR_CODES@[i + 1] == 0x300b);
    } else if i == 68 {
        assert(ESP_IDF_ERROR_CODES@[i] == 0x300b);
        assert(ESP_IDF_ERROR_CODES@[i + 1] == 0x300c);
    } else if i == 69 {
        assert(ESP_IDF_ERROR_CODES@[i] == 0x300c);
        assert(ESP_IDF_ERROR_CODES@[i + 1] == 0x300d);
    } else if i == 70 {
        assert(ESP_IDF_ERROR_CODES@[i] == 0x300d);
        assert(ESP_IDF_ERROR_CODES@[i + 1] == 0x300e);
    } else if i == 71 {
        assert(ESP_IDF_ERROR_CODES@[i] == 0x300e);
        assert(ESP_IDF_ERROR_CODES@[i + 1] == 0x300f);
    } else if i == 72 {
        assert(ESP_IDF_ERROR_CODES@[i] == 0x300f);
        assert(ESP_IDF_ERROR_CODES@[i + 1] == 0x3012);
    } else if i == 73 {
        assert(ESP_IDF_ERROR_CODES@[i] == 0x3012);
        assert(ESP_IDF_ERROR_CODES@[i + 1] == 0x3013);
    } else if i == 74 {
        assert(ESP_IDF_ERROR_CODES@[i] == 0x3013);
        assert(ESP_IDF_ERROR_CODES@[i + 1] == 0x3014);
    } else if i == 75 {
        assert(ESP_IDF_ERROR_CODES@[i] == 0x3014);
        assert(ESP_IDF_ERROR_CODES@[i + 1] == 0x3015);
    } else if i == 76 {
        assert(ESP_IDF_ERROR_CODES@[i] == 0x3015);
        assert(ESP_IDF_ERROR_CODES@[i + 1] == 0x3016);
    } else if i == 77 {
        assert(ESP_IDF_ERROR_CODES@[i] == 0x3016);
        assert(ESP_IDF_ERROR_CODES@[i + 1] == 0x3017);
    } else if i == 78 {
        assert(ESP_IDF_ERROR_CODES@[i] == 0x3017);
        assert(ESP_IDF_ERROR_CODES@[i + 1] == 0x3018);
    } else if i == 79 {
        assert(ESP_IDF_ERROR_CODES@[i] == 0x3018);
        assert(ESP_IDF_ERROR_CODES@[i + 1] == 0x3019);
    }
}

/// The table facts for every code from `0x3019` to `0x306c`.
proof fn lemma_table_codes_5(code: i32)
    requires
        0x3019 <= code <= 0x306c,
    ensures
        table_facts(code),
{
    if code == 0x3019 {
        reveal_strlit("ESP_ERR_WIFI_TWT_SETUP_TXFAIL");
        reveal_strlit("[ESP_ERR_WIFI_TWT_SETUP_TXFAIL]: TWT setup frame tx failed");
        assert(spec_error_info(code).unwrap().subrange(0, spec_error_name(code).unwrap().len() + 4int)
            =~= seq!['['] + spec_error_name(code).unwrap() + seq![']', ':', ' ']);
        assert(ESP_IDF_ERROR_CODES@[80] == code);
        let name = spec_error_name(code).unwrap();
        assert(name.subrange(0, 4) =~= seq!['E', 'S', 'P', '_']);
        assert(name.subrange(0, 8) =~= seq!['E', 'S', 'P', '_', 'E', 'R', 'R', '_']);
        assert forall|j: int| 0 <= j < name.len() implies is_name_char(#[trigger] name[j]) by {
            if j == 0 {
            } else if j == 1 {
            } else if j == 2 {
            } else if j == 3 {
            } else if j == 4 {
            } else if j == 5 {
            } else if j == 6 {
            } else if j == 7 {
            } else if j == 8 {
            } else if j == 9 {
            } else if j == 10 {
            } else if j == 11 {
            } else if j == 12 {
            } else if j == 13 {
            } else if j == 14 {
            } else if j == 15 {
            } else if j == 16 {
            } else if j == 17 {
            } else if j == 18 {
            } else if j == 19 {
            } else if j == 20 {
            } else if j == 21 {
            } else if j == 22 {
            } else if j == 23 {
            } else if j == 24 {
            } else if j == 25 {
            } else if j == 26 {
            } else if j == 27 {
            } else if j == 28 {
            }
        }
    } else if code == 0x301a {
        reveal_strlit("ESP_ERR_WIFI_TWT_SETUP_REJECT");
        reveal_strlit("[ESP_ERR_WIFI_TWT_SETUP_REJECT]: The twt setup request was rejected by the AP");
        assert(spec_error_info(code).unwrap().subrange(0, spec_error_name(code).unwrap().len() + 4int)
            =~= seq!['['] + spec_error_name(code).unwrap() + seq![']', ':', ' ']);
        assert(ESP_IDF_ERROR_CODES@[81] == code);
        let name = spec_error_name(code).unwrap();
        assert(name.subrange(0, 4) =~= seq!['E', 'S', 'P', '_']);
        assert(name.subrange(0, 8) =~= seq!['E', 'S', 'P', '_', 'E', 'R', 'R', '_']);
        assert forall|j: int| 0 <= j < name.len() implies is_name_char(#[trigger] name[j]) by {
            if j == 0 {
            } else if j == 1 {
            } else if j == 2 {
            } else if j == 3 {
            } else if j == 4 {
            } else if j == 5 {
            } else if j == 6 {
            } else if j == 7 {
            } else if j == 8 {
            } else if j == 9 {
            } else if j == 10 {
            } else if j == 11 {
            } else if j == 12 {
            } else if j == 13 {
            } else if j == 14 {
            } else if j == 15 {
            } else if j == 16 {
            } else if j == 17 {
            } else if j == 18 {
            } else if j == 19 {
            } else if j == 20 {
            } else if j == 21 {
            } else if j == 22 {
            } else if j == 23 {
            } else if j == 24 {
            } else if j == 25 {
            } else if j == 26 {
            } else if j == 27 {
            } else if j == 28 {
            }
        }
    } else if code == 0x301b {
        reveal_strlit("ESP_ERR_WIFI_DISCARD");
        reveal_strlit("[ESP_ERR_WIFI_DISCARD]: Discard frame");
        assert(spec_error_info(code).unwrap().subrange(0, spec_error_name(code).unwrap().len() + 4int)
            =~= seq!['['] + spec_error_name(code).unwrap() + seq![']', ':', ' ']);
        assert(ESP_IDF_ERROR_CODES@[82] == code);
        let name = spec_error_name(code).unwrap();
        assert(name.subrange(0, 4) =~= seq!['E', 'S', 'P', '_']);
        assert(name.subrange(0, 8) =~= seq!['E', 'S', 'P', '_', 'E', 'R', 'R', '_']);
        assert forall|j: int| 0 <= j < name.len() implies is_name_char(#[trigger] name[j]) by {
            if j == 0 {
            } else if j == 1 {
            } else if j == 2 {
            } else if j == 3 {
            } else if j == 4 {
            } else if j == 5 {
            } else if j == 6 {
            } else if j == 7 {
            } else if j == 8 {
            } else if j == 9 {
            } else if j == 10 {
            } else if j == 11 {
            } else if j == 12 {
            } else if j == 13 {
            } else if j == 14 {
            } else if j == 15 {
            } else if j == 16 {
            } else if j == 17 {
            } else if j == 18 {
            } else if j == 19 {
            }
        }
    } else if code == 0x301c {
        reveal_strlit("ESP_ERR_WIFI_ROC_IN_PROGRESS");
        reveal_strlit("[ESP_ERR_WIFI_ROC_IN_PROGRESS]: ROC op is in progress");
        assert(spec_error_info(code).unwrap().subrange(0, spec_error_name(code).unwrap().len() + 4int)
            =~= seq!['['] + spec_error_name(code).unwrap() + seq![']', ':', ' ']);
        assert(ESP_IDF_ERROR_CODES@[83] == code);
        let name = spec_error_name(code).unwrap();
        assert(name.subrange(0, 4) =~= seq!['E', 'S', 'P', '_']);
        assert(name.subrange(0, 8) =~= seq!['E', 'S', 'P', '_', 'E', 'R', 'R', '_']);
        assert forall|j: int| 0 <= j < name.len() implies is_name_char(#[trigger] name[j]) by {
            if j == 0 {
            } else if j == 1 {
            } else if j == 2 {
            } else if j == 3 {
            } else if j == 4 {
            } else if j == 5 {
            } else if j == 6 {
            } else if j == 7 {
            } else if j == 8 {
            } else if j == 9 {
            } else if j == 10 {
            } else if j == 11 {
            } else if j == 12 {
            } else if j == 13 {
            } else if j == 14 {
            } else if j == 15 {
            } else if j == 16 {
            } else if j == 17 {
            } else if j == 18 {
            } else if j == 19 {
            } else if j == 20 {
            } else if j == 21 {
            } else if j == 22 {
            } else if j == 23 {
            } else if j == 24 {
            } else if j == 25 {
            } else if j == 26 {
            } else if j == 27 {
            }
        }
    } else if code == 0x3033 {
        reveal_strlit("ESP_ERR_WIFI_REGISTRAR");
        reveal_strlit("[ESP_ERR_WIFI_REGISTRAR]: WPS registrar is not supported");
        assert(spec_error_info(code).unwrap().subrange(0, spec_error_name(code).unwrap().len() + 4int)
            =~= seq!['['] + spec_error_name(code).unwrap() + seq![']', ':', ' ']);
        assert(ESP_IDF_ERROR_CODES@[84] == code);
        let name = spec_error_name(code).unwrap();
        assert(name.subrange(0, 4) =~= seq!['E', 'S', 'P', '_']);
        assert(name.subrange(0, 8) =~= seq!['E', 'S', 'P', '_', 'E', 'R', 'R', '_']);
        assert forall|j: int| 0 <= j < name.len() implies is_name_char(#[trigger] name[j]) by {
            if j == 0 {
            } else if j == 1 {
            } else if j == 2 {
            } else if j == 3 {
            } else if j == 4 {
            } else if j == 5 {
            } else if j == 6 {
            } else if j == 7 {
            } else if j == 8 {
            } else if j == 9 {
            } else if j == 10 {
            } else if j == 11 {
            } else if j == 12 {
            } else if j == 13 {
            } else if j == 14 {
            } else if j == 15 {
            } else if j == 16 {
            } else if j == 17 {
            } else if j == 18 {
            } else if j == 19 {
            } else if j == 20 {
            } else if j == 21 {
            }
        }
    } else if code == 0x3034 {
        reveal_strlit("ESP_ERR_WIFI_WPS_TYPE");
        reveal_strlit("[ESP_ERR_WIFI_WPS_TYPE]: WPS type error");
        assert(spec_error_info(code).unwrap().subrange(0, spec_error_name(code).unwrap().len() + 4int)
            =~= seq!['['] + spec_error_name(code).unwrap() + seq![']', ':', ' ']);
        assert(ESP_IDF_ERROR_CODES@[85] == code);
        let name = spec_error_name(code).unwrap();
        assert(name.subrange(0, 4) =~= seq!['E', 'S', 'P', '_']);
        assert(name.subrange(0, 8) =~= seq!['E', 'S', 'P', '_', 'E', 'R', 'R', '_']);
        assert forall|j: int| 0 <= j < name.len() implies is_name_char(#[trigger] name[j]) by {
            if j == 0 {
            } else if j == 1 {
            } else if j == 2 {
            } else if j == 3 {
            } else if j == 4 {
            } else if j == 5 {
            } else if j == 6 {
            } else if j == 7 {
            } else if j == 8 {
            } else if j == 9 {
            } else if j == 10 {
            } else if j == 11 {
            } else if j == 12 {
            } else if j == 13 {
            } else if j == 14 {
            } else if j == 15 {
            } else if j == 16 {
            } else if j == 17 {
            } else if j == 18 {
            } else if j == 19 {
            } else if j == 20 {
            }
        }
    } else if code == 0x3035 {
        reveal_strlit("ESP_ERR_WIFI_WPS_SM");
        reveal_strlit("[ESP_ERR_WIFI_WPS_SM]: WPS state machine is not initialized");
        assert(spec_error_info(code).unwrap().subrange(0, spec_error_name(code).unwrap().len() + 4int)
            =~= seq!['['] + spec_error_name(code).unwrap() + seq![']', ':', ' ']);
        assert(ESP_IDF_ERROR_CODES@[86] == code);
        let name = spec_error_name(code).unwrap();
        assert(name.subrange(0, 4) =~= seq!['E', 'S', 'P', '_']);
        assert(name.subrange(0, 8) =~= seq!['E', 'S', 'P', '_', 'E', 'R', 'R', '_']);
        assert forall|j: int| 0 <= j < name.len() implies is_name_char(#[trigger] name[j]) by {
            if j == 0 {
            } else if j == 1 {
            } else if j == 2 {
            } else if j == 3 {
            } else if j == 4 {
            } else if j == 5 {
            } else if j == 6 {
            } else if j == 7 {
            } else if j == 8 {
            } else if j == 9 {
            } else if j == 10 {
            } else if j == 11 {
            } else if j == 12 {
            } else if j == 13 {
            } else if j == 14 {
            } else if j == 15 {
            } else if j == 16 {
            } else if j == 17 {
            } else if j == 18 {
            }
        }
    } else if code == 0x3064 {
        reveal_strlit("ESP_ERR_ESPNOW_BASE");
        reveal_strlit("[ESP_ERR_ESPNOW_BASE]: ESPNOW error number base.");
        assert(spec_error_info(code).unwrap().subrange(0, spec_error_name(code).unwrap().len() + 4int)
            =~= seq!['['] + spec_error_name(code).unwrap() + seq![']', ':', ' ']);
        assert(ESP_IDF_ERROR_CODES@[87] == code);
        let name = spec_error_name(code).unwrap();
        assert(name.subrange(0, 4) =~= seq!['E', 'S', 'P', '_']);
        assert(name.subrange(0, 8) =~= seq!['E', 'S', 'P', '_', 'E', 'R', 'R', '_']);
        assert forall|j: int| 0 <= j < name.len() implies is_name_char(#[trigger] name[j]) by {
            if j == 0 {
            } else if j == 1 {
            } else if j == 2 {
            } else if j == 3 {
            } else if j == 4 {
            } else if j == 5 {
            } else if j == 6 {
            } else if j == 7 {
            } else if j == 8 {
            } else if j == 9 {
            } else if j == 10 {
            } else if j == 11 {
            } else if j == 12 {
            } else if j == 13 {
            } else if j == 14 {
            } else if j == 15 {
            } else if j == 16 {
            } else if j == 17 {
            } else if j == 18 {
            }
        }
    } else if code == 0x3065 {
        reveal_strlit("ESP_ERR_ESPNOW_NOT_INIT");
        reveal_strlit("[ESP_ERR_ESPNOW_NOT_INIT]: ESPNOW is not initialized.");
        assert(spec_error_info(code).unwrap().subrange(0, spec_error_name(code).unwrap().len() + 4int)
            =~= seq!['['] + spec_error_name(code).unwrap() + seq![']', ':', ' ']);
        assert(ESP_IDF_ERROR_CODES@[88] == code);
        let name = spec_error_name(code).unwrap();
        assert(name.subrange(0, 4) =~= seq!['E', 'S', 'P', '_']);
        assert(name.subrange(0, 8) =~= seq!['E', 'S', 'P', '_', 'E', 'R', 'R', '_']);
        assert forall|j: int| 0 <= j < name.len() implies is_name_char(#[trigger] name[j]) by {
            if j == 0 {
            } else if j == 1 {
            } else if j == 2 {
            } else if j == 3 {
            } else if j == 4 {
            } else if j == 5 {
            } else if j == 6 {
            } else if j == 7 {
            } else if j == 8 {
            } else if j == 9 {
            } else if j == 10 {
            } else if j == 11 {
            } else if j == 12 {
            } else if j == 13 {
            } else if j == 14 {
            } else if j == 15 {
            } else if j == 16 {
            } else if j == 17 {
            } else if j == 18 {
            } else if j == 19 {
            } else if j == 20 {
            } else if j == 21 {
            } else if j == 22 {
            }
        }
    } else if code == 0x3066 {
        reveal_strlit("ESP_ERR_ESPNOW_ARG");
        reveal_strlit("[ESP_ERR_ESPNOW_ARG]: Invalid argument");
        assert(spec_error_info(code).unwrap().subrange(0, spec_error_name(code).unwrap().len() + 4int)
            =~= seq!['['] + spec_error_name(code).unwrap() + seq![']', ':', ' ']);
        assert(ESP_IDF_ERROR_CODES@[89] == code);
        let name = spec_error_name(code).unwrap();
        assert(name.subrange(0, 4) =~= seq!['E', 'S', 'P', '_']);
        assert(name.subrange(0, 8) =~= seq!['E', 'S', 'P', '_', 'E', 'R', 'R', '_']);
        assert forall|j: int| 0 <= j < name.len() implies is_name_char(#[trigger] name[j]) by {
            if j == 0 {
            } else if j == 1 {
            } else if j == 2 {
            } else if j == 3 {
            } else if j == 4 {
            } else if j == 5 {
            } else if j == 6 {
            } else if j == 7 {
            } else if j == 8 {
            } else if j == 9 {
            } else if j == 10 {
            } else if j == 11 {
            } else if j == 12 {
            } else if j == 13 {
            } else if j == 14 {
            } else if j == 15 {
            } else if j == 16 {
            } else if j == 17 {
            }
        }
    } else if code == 0x3067 {
        reveal_strlit("ESP_ERR_ESPNOW_NO_MEM");
        reveal_strlit("[ESP_ERR_ESPNOW_NO_MEM]: Out of memory");
        assert(spec_error_info(code).unwrap().subrange(0, spec_error_name(code).unwrap().len() + 4int)
            =~= seq!['['] + spec_error_name(code).unwrap() + seq![']', ':', ' ']);
        assert(ESP_IDF_ERROR_CODES@[90] == code);
        let name = spec_error_name(code).unwrap();
        assert(name.subrange(0, 4) =~= seq!['E', 'S', 'P', '_']);
        assert(name.subrange(0, 8) =~= seq!['E', 'S', 'P', '_', 'E', 'R', 'R', '_']);
        assert forall|j: int| 0 <= j < name.len() implies is_name_char(#[trigger] name[j]) by {
            if j == 0 {
            } else if j == 1 {
            } else if j == 2 {
            } else if j == 3 {
            } else if j == 4 {
            } else if j == 5 {
            } else if j == 6 {
            } else if j == 7 {
            } else if j == 8 {
            } else if j == 9 {
            } else if j == 10 {
            } else if j == 11 {
            } else if j == 12 {
            } else if j == 13 {
            } else if j == 14 {
            } else if j == 15 {
            } else if j == 16 {
            } else if j == 17 {
            } else if j == 18 {
            } else if j == 19 {
            } else if j == 20 {
            }
        }
    } else if code == 0x3068 {
        reveal_strlit("ESP_ERR_ESPNOW_FULL");
        reveal_strlit("[ESP_ERR_ESPNOW_FULL]: ESPNOW peer list is full");
        assert(spec_error_info(code).unwrap().subrange(0, spec_error_name(code).unwrap().len() + 4int)
            =~= seq!['['] + spec_error_name(code).unwrap() + seq![']', ':', ' ']);
        assert(ESP_IDF_ERROR_CODES@[91] == code);
        let name = spec_error_name(code).unwrap();
        assert(name.subrange(0, 4) =~= seq!['E', 'S', 'P', '_']);
        assert(name.subrange(0, 8) =~= seq!['E', 'S', 'P', '_', 'E', 'R', 'R', '_']);
        assert forall|j: int| 0 <= j < name.len() implies is_name_char(#[trigger] name[j]) by {
            if j == 0 {
            } else if j == 1 {
            } else if j == 2 {
            } else if j == 3 {
            } else if j == 4 {
            } else if j == 5 {
            } else if j == 6 {
            } else if j == 7 {
            } else if j == 8 {
            } else if j == 9 {
            } else if j == 10 {
            } else if j == 11 {
            } else if j == 12 {
            } else if j == 13 {
            } else if j == 14 {
            } else if j == 15 {
            } else if j == 16 {
            } else if j == 17 {
            } else if j == 18 {
            }
        }
    } else if code == 0x3069 {
        reveal_strlit("ESP_ERR_ESPNOW_NOT_FOUND");
        reveal_strlit("[ESP_ERR_ESPNOW_NOT_FOUND]: ESPNOW peer is not found");
        assert(spec_error_info(code).unwrap().subrange(0, spec_error_name(code).unwrap().len() + 4int)
            =~= seq!['['] + spec_error_name(code).unwrap() + seq![']', ':', ' ']);
        assert(ESP_IDF_ERROR_CODES@[92] == code);
        let name = spec_error_name(code).unwrap();
        assert(name.subrange(0, 4) =~= seq!['E', 'S', 'P', '_']);
        assert(name.subrange(0, 8) =~= seq!['E', 'S', 'P', '_', 'E', 'R', 'R', '_']);
        assert forall|j: int| 0 <= j < name.len() implies is_name_char(#[trigger] name[j]) by {
            if j == 0 {
            } else if j == 1 {
            } else if j == 2 {
            } else if j == 3 {
            } else if j == 4 {
            } else if j == 5 {
            } else if j == 6 {
            } else if j == 7 {
            } else if j == 8 {
            } else if j == 9 {
            } else if j == 10 {
            } else if j == 11 {
            } else if j == 12 {
            } else if j == 13 {
            } else if j == 14 {
            } else if j == 15 {
            } else if j == 16 {
            } else if j == 17 {
            } else if j == 18 {
            } else if j == 19 {
            } else if j == 20 {
            } else if j == 21 {
            } else if j == 22 {
            } else if j == 23 {
            }
        }
    } else if code == 0x306a {
        reveal_strlit("ESP_ERR_ESPNOW_INTERNAL");
        reveal_strlit("[ESP_ERR_ESPNOW_INTERNAL]: Internal error");
        assert(spec_error_info(code).unwrap().subrange(0, spec_error_name(code).unwrap().len() + 4int)
            =~= seq!['['] + spec_error_name(code).unwrap() + seq![']', ':', ' ']);
        assert(ESP_IDF_ERROR_CODES@[93] == code);
        let name = spec_error_name(code).unwrap();
        assert(name.subrange(0, 4) =~= seq!['E', 'S', 'P', '_']);
        assert(name.subrange(0, 8) =~= seq!['E', 'S', 'P', '_', 'E', 'R', 'R', '_']);
        assert forall|j: int| 0 <= j < name.len() implies is_name_char(#[trigger] name[j]) by {
            if j == 0 {
            } else if j == 1 {
            } else if j == 2 {
            } else if j == 3 {
            } else if j == 4 {
            } else if j == 5 {
            } else if j == 6 {
            } else if j == 7 {
            } else if j == 8 {
            } else if j == 9 {
            } else if j == 10 {
            } else if j == 11 {
            } else if j == 12 {
            } else if j == 13 {
            } else if j == 14 {
            } else if j == 15 {
            } else if j == 16 {
            } else if j == 17 {
            } else if j == 18 {
            } else if j == 19 {
            } else if j == 20 {
            } else if j == 21 {
            } else if j == 22 {
            }
        }
    } else if code == 0x306b {
        reveal_strlit("ESP_ERR_ESPNOW_EXIST");
        reveal_strlit("[ESP_ERR_ESPNOW_EXIST]: ESPNOW peer has existed");
        assert(spec_error_info(code).unwrap().subrange(0, spec_error_name(code).unwrap().len() + 4int)
            =~= seq!['['] + spec_error_name(code).unwrap() + seq![']', ':', ' ']);
        assert(ESP_IDF_ERROR_CODES@[94] == code);
        let name = spec_error_name(code).unwrap();
        assert(name.subrange(0, 4) =~= seq!['E', 'S', 'P', '_']);
        assert(name.subrange(0, 8) =~= seq!['E', 'S', 'P', '_', 'E', 'R', 'R', '_']);
        assert forall|j: int| 0 <= j < name.len() implies is_name_char(#[trigger] name[j]) by {
            if j == 0 {
            } else if j == 1 {
            } else if j == 2 {
            } else if j == 3 {
            } else if j == 4 {
            } else if j == 5 {
            } else if j == 6 {
            } else if j == 7 {
            } else if j == 8 {
            } else if j == 9 {
            } else if j == 10 {
            } else if j == 11 {
            } else if j == 12 {
            } else if j == 13 {
            } else if j == 14 {
            } else if j == 15 {
            } else if j == 16 {
            } else if j == 17 {
            } else if j == 18 {
            } else if j == 19 {
            }
        }
    } else if code == 0x306c {
        reveal_strlit("ESP_ERR_ESPNOW_IF");
        reveal_strlit("[ESP_ERR_ESPNOW_IF]: Interface error");
        assert(spec_error_info(code).unwrap().subrange(0, spec_error_name(code).unwrap().len() + 4int)
            =~= seq!['['] + spec_error_name(code).unwrap() + seq![']', ':', ' ']);
        assert(ESP_IDF_ERROR_CODES@[95] == code);
        let name = spec_error_name(code).unwrap();
        assert(name.subrange(0, 4) =~= seq!['E', 'S', 'P', '_']);
        assert(name.subrange(0, 8) =~= seq!['E', 'S', 'P', '_', 'E', 'R', 'R', '_']);
        assert forall|j: int| 0 <= j < name.len() implies is_name_char(#[trigger] name[j]) by {
            if j == 0 {
            } else if j == 1 {
            } else if j == 2 {
            } else if j == 3 {
            } else if j == 4 {
            } else if j == 5 {
            } else if j == 6 {
            } else if j == 7 {
            } else if j == 8 {
            } else if j == 9 {
            } else if j == 10 {
            } else if j == 11 {
            } else if j == 12 {
            } else if j == 13 {
            } else if j == 14 {
            } else if j == 15 {
            } else if j == 16 {
            }
        }
    }
}

/// Entries 80 to 95 of `ESP_IDF_ERROR_CODES` are known codes, each below the next.
proof fn lemma_table_indices_5(i: int)
    requires
        80 <= i < 96,
    ensures
        is_error_code(ESP_IDF_ERROR_CODES@[i]),
        ESP_IDF_ERROR_CODES@[i] < ESP_IDF_ERROR_CODES@[i + 1],
{
    if i == 80 {
        assert(ESP_IDF_ERROR_CODES@[i] == 0x3019);
        assert(ESP_IDF_ERROR_CODES@[i + 1] == 0x301a);
    } else if i == 81 {
        assert(ESP_IDF_ERROR_CODES@[i] == 0x301a);
        assert(ESP_IDF_ERROR_CODES@[i + 1] == 0x301b);
    } else if i == 82 {
        assert(ESP_IDF_ERROR_CODES@[i] == 0x301b);
        assert(ESP_IDF_ERROR_CODES@[i + 1] == 0x301c);
    } else if i == 83 {
        assert(ESP_IDF_ERROR_CODES@[i] == 0x301c);
        assert(ESP_IDF_ERROR_CODES@[i + 1] == 0x3033);
    } else if i == 84 {
        assert(ESP_IDF_ERROR_CODES@[i] == 0x3033);
        assert(ESP_IDF_ERROR_CODES@[i + 1] == 0x3034);
    } else if i == 85 {
        assert(ESP_IDF_ERROR_CODES@[i] == 0x3034);
        assert(ESP_IDF_ERROR_CODES@[i + 1] == 0x3035);
    } else if i == 86 {
        assert(ESP_IDF_ERROR_CODES@[i] == 0x3035);
        assert(ESP_IDF_ERROR_CODES@[i + 1] == 0x3064);
    } else if i == 87 {
        assert(ESP_IDF_ERROR_CODES@[i] == 0x3064);
        assert(ESP_IDF_ERROR_CODES@[i + 1] == 0x3065);
    } else if i == 88 {
        assert(ESP_IDF_ERROR_CODES@[i] == 0x3065);
        assert(ESP_IDF_ERROR_CODES@[i + 1] == 0x3066);
    } else if i == 89 {
        assert(ESP_IDF_ERROR_CODES@[i] == 0x3066);
        assert(ESP_IDF_ERROR_CODES@[i + 1] == 0x3067);
    } else if i == 90 {
        assert(ESP_IDF_ERROR_CODES@[i] == 0x3067);
        assert(ESP_IDF_ERROR_CODES@[i + 1] == 0x3068);
    } else if i == 91 {
        assert(ESP_IDF_ERROR_CODES@[i] == 0x3068);
        assert(ESP_IDF_ERROR_CODES@[i + 1] == 0x3069);
    } else if i == 92 {
        assert(ESP_IDF_ERROR_CODES@[i] == 0x3069);
        assert(ESP_IDF_ERROR_CODES@[i + 1] == 0x306a);
    } else if i == 93 {
        assert(ESP_IDF_ERROR_CODES@[i] == 0x306a);
        assert(ESP_IDF_ERROR_CODES@[i + 1] == 0x306b);
    } else if i == 94 {
        assert(ESP_IDF_ERROR_CODES@[i] == 0x306b);
        assert(ESP_IDF_ERROR_CODES@[i + 1] == 0x306c);
    } else if i == 95 {
        assert(ESP_IDF_ERROR_CODES@[i] == 0x306c);
        assert(ESP_IDF_ERROR_CODES@[i + 1] == 0x306d);
    }
}

/// The table facts for every code from `0x306d` to `0x4009`.
proof fn lemma_table_codes_6(code: i32)
    requires
        0x306d <= code <= 0x4009,
    ensures
        table_facts(code),
{
    if code == 0x306d {
        reveal_strlit("ESP_ERR_ESPNOW_CHAN");
        reveal_strlit("[ESP_ERR_ESPNOW_CHAN]: Channel error");
        assert(spec_error_info(code).unwrap().subrange(0, spec_error_name(code).unwrap().len() + 4int)
            =~= seq!['['] + spec_error_name(code).unwrap() + seq![']', ':', ' ']);
        assert(ESP_IDF_ERROR_CODES@[96] == code);
        let name = spec_error_name(code).unwrap();
        assert(name.subrange(0, 4) =~= seq!['E', 'S', 'P', '_']);
        assert(name.subrange(0, 8) =~= seq!['E', 'S', 'P', '_', 'E', 'R', 'R', '_']);
        assert forall|j: int| 0 <= j < name.len() implies is_name_char(#[trigger] name[j]) by {
            if j == 0 {
            } else if j == 1 {
            } else if j == 2 {
            } else if j == 3 {
            } else if j == 4 {
            } else if j == 5 {
            } else if j == 6 {
            } else if j == 7 {
            } else if j == 8 {
            } else if j == 9 {
            } else if j == 10 {
            } else if j == 11 {
            } else if j == 12 {
            } else if j == 13 {
            } else if j == 14 {
            } else if j == 15 {
            } else if j == 16 {
            } else if j == 17 {
            } else if j == 18 {
            }
        }
    } else if code == 0x3097 {
        reveal_strlit("ESP_ERR_DPP_FAILURE");
        reveal_strlit("[ESP_ERR_DPP_FAILURE]: Generic failure during DPP Operation");
        assert(spec_error_info(code).unwrap().subrange(0, spec_error_name(code).unwrap().len() + 4int)
            =~= seq!['['] + spec_error_name(code).unwrap() + seq![']', ':', ' ']);
        assert(ESP_IDF_ERROR_CODES@[97] == code);
        let name = spec_error_name(code).unwrap();
        assert(name.subrange(0, 4) =~= seq!['E', 'S', 'P', '_']);
        assert(name.subrange(0, 8) =~= seq!['E', 'S', 'P', '_', 'E', 'R', 'R', '_']);
        assert forall|j: int| 0 <= j < name.len() implies is_name_char(#[trigger] name[j]) by {
            if j == 0 {
            } else if j == 1 {
            } else if j == 2 {
            } else if j == 3 {
            } else if j == 4 {
            } else if j == 5 {
            } else if j == 6 {
            } else if j == 7 {
            } else if j == 8 {
            } else if j == 9 {
            } else if j == 10 {
            } else if j == 11 {
            } else if j == 12 {
            } else if j == 13 {
            } else if j == 14 {
            } else if j == 15 {
            } else if j == 16 {
            } else if j == 17 {
            } else if j == 18 {
            }
        }
    } else if code == 0x3098 {
        reveal_strlit("ESP_ERR_DPP_TX_FAILURE");
        reveal_strlit("[ESP_ERR_DPP_TX_FAILURE]: DPP Frame Tx failed OR not Acked");
        assert(spec_error_info(code).unwrap().subrange(0, spec_error_name(code).unwrap().len() + 4int)
            =~= seq!['['] + spec_error_name(code).unwrap() + seq![']', ':', ' ']);
        assert(ESP_IDF_ERROR_CODES@[98] == code);
        let name = spec_error_name(code).unwrap();
        assert(name.subrange(0, 4) =~= seq!['E', 'S', 'P', '_']);
        assert(name.subrange(0, 8) =~= seq!['E', 'S', 'P', '_', 'E', 'R', 'R', '_']);
        assert forall|j: int| 0 <= j < name.len() implies is_name_char(#[trigger] name[j]) by {
            if j == 0 {
            } else if j == 1 {
            } else if j == 2 {
            } else if j == 3 {
            } else if j == 4 {
            } else if j == 5 {
            } else if j == 6 {
            } else if j == 7 {
            } else if j == 8 {
            } else if j == 9 {
            } else if j == 10 {
            } else if j == 11 {
            } else if j == 12 {
            } else if j == 13 {
            } else if j == 14 {
            } else if j == 15 {
            } else if j == 16 {
            } else if j == 17 {
            } else if j == 18 {
            } else if j == 19 {
            } else if j == 20 {
            } else if j == 21 {
            }
        }
    } else if code == 0x3099 {
        reveal_strlit("ESP_ERR_DPP_INVALID_ATTR");
        reveal_strlit("[ESP_ERR_DPP_INVALID_ATTR]: Encountered invalid DPP Attribute");
        assert(spec_error_info(code).unwrap().subrange(0, spec_error_name(code).unwrap().len() + 4int)
            =~= seq!['['] + spec_error_name(code).unwrap() + seq![']', ':', ' ']);
        assert(ESP_IDF_ERROR_CODES@[99] == code);
        let name = spec_error_name(code).unwrap();
        assert(name.subrange(0, 4) =~= seq!['E', 'S', 'P', '_']);
        assert(name.subrange(0, 8) =~= seq!['E', 'S', 'P', '_', 'E', 'R', 'R', '_']);
        assert forall|j: int| 0 <= j < name.len() implies is_name_char(#[trigger] name[j]) by {
            if j == 0 {
            } else if j == 1 {
            } else if j == 2 {
            } else if j == 3 {
            } else if j == 4 {
            } else if j == 5 {
            } else if j == 6 {
            } else if j == 7 {
            } else if j == 8 {
            } else if j == 9 {
            } else if j == 10 {
            } else if j == 11 {
            } else if j == 12 {
            } else if j == 13 {
            } else if j == 14 {
            } else if j == 15 {
            } else if j == 16 {
            } else if j == 17 {
            } else if j == 18 {
            } else if j == 19 {
            } else if j == 20 {
            } else if j == 21 {
            } else if j == 22 {
            } else if j == 23 {
            }
        }
    } else if code == 0x309a {
        reveal_strlit("ESP_ERR_DPP_AUTH_TIMEOUT");
        reveal_strlit("[ESP_ERR_DPP_AUTH_TIMEOUT]: DPP Auth response was not received in time");
        assert(spec_error_info(code).unwrap().subrange(0, spec_error_name(code).unwrap().len() + 4int)
            =~= seq!['['] + spec_error_name(code).unwrap() + seq![']', ':', ' ']);
        assert(ESP_IDF_ERROR_CODES@[100] == code);
        let name = spec_error_name(code).unwrap();
        assert(name.subrange(0, 4) =~= seq!['E', 'S', 'P', '_']);
        assert(name.subrange(0, 8) =~= seq!['E', 'S', 'P', '_', 'E', 'R', 'R', '_']);
        assert forall|j: int| 0 <= j < name.len() implies is_name_char(#[trigger] name[j]) by {
            if j == 0 {
            } else if j == 1 {
            } else if j == 2 {
            } else if j == 3 {
            } else if j == 4 {
            } else if j == 5 {
            } else if j == 6 {
            } else if j == 7 {
            } else if j == 8 {
            } else if j == 9 {
            } else if j == 10 {
            } else if j == 11 {
            } else if j == 12 {
            } else if j == 13 {
            } else if j == 14 {
            } else if j == 15 {
            } else if j == 16 {
            } else if j == 17 {
            } else if j == 18 {
            } else if j == 19 {
            } else if j == 20 {
            } else if j == 21 {
            } else if j == 22 {
            } else if j == 23 {
            }
        }
    } else if code == 0x309b {
        reveal_strlit("ESP_ERR_DPP_INVALID_LIST");
        reveal_strlit("[ESP_ERR_DPP_INVALID_LIST]: Channel list given in esp_supp_dpp_bootstrap_gen() is not valid or too big");
        assert(spec_error_info(code).unwrap().subrange(0, spec_error_name(code).unwrap().len() + 4int)
            =~= seq!['['] + spec_error_name(code).unwrap() + seq![']', ':', ' ']);
        assert(ESP_IDF_ERROR_CODES@[101] == code);
        let name = spec_error_name(code).unwrap();
        assert(name.subrange(0, 4) =~= seq!['E', 'S', 'P', '_']);
        assert(name.subrange(0, 8) =~= seq!['E', 'S', 'P', '_', 'E', 'R', 'R', '_']);
        assert forall|j: int| 0 <= j < name.len() implies is_name_char(#[trigger] name[j]) by {
            if j == 0 {
            } else if j == 1 {
            } else if j == 2 {
            } else if j == 3 {
            } else if j == 4 {
            } else if j == 5 {
            } else if j == 6 {
            } else if j == 7 {
            } else if j == 8 {
            } else if j == 9 {
            } else if j == 10 {
            } else if j == 11 {
            } else if j == 12 {
            } else if j == 13 {
            } else if j == 14 {
            } else if j == 15 {
            } else if j == 16 {
            } else if j == 17 {
            } else if j == 18 {
            } else if j == 19 {
            } else if j == 20 {
            } else if j == 21 {
            } else if j == 22 {
            } else if j == 23 {
            }
        }
    } else if code == 0x309c {
        reveal_strlit("ESP_ERR_DPP_CONF_TIMEOUT");
        reveal_strlit("[ESP_ERR_DPP_CONF_TIMEOUT]: DPP Configuration was not received in time");
        assert(spec_error_info(code).unwrap().subrange(0, spec_error_name(code).unwrap().len() + 4int)
            =~= seq!['['] + spec_error_name(code).unwrap() + seq![']', ':', ' ']);
        assert(ESP_IDF_ERROR_CODES@[102] == code);
        let name = spec_error_name(code).unwrap();
        assert(name.subrange(0, 4) =~= seq!['E', 'S', 'P', '_']);
        assert(name.subrange(0, 8) =~= seq!['E', 'S', 'P', '_', 'E', 'R', 'R', '_']);
        assert forall|j: int| 0 <= j < name.len() implies is_name_char(#[trigger] name[j]) by {
            if j == 0 {
            } else if j == 1 {
            } else if j == 2 {
            } else if j == 3 {
            } else if j == 4 {
            } else if j == 5 {
            } else if j == 6 {
            } else if j == 7 {
            } else if j == 8 {
            } else if j == 9 {
            } else if j == 10 {
            } else if j == 11 {
            } else if j == 12 {
            } else if j == 13 {
            } else if j == 14 {
            } else if j == 15 {
            } else if j == 16 {
            } else if j == 17 {
            } else if j == 18 {
            } else if j == 19 {
            } else if j == 20 {
            } else if j == 21 {
            } else if j == 22 {
            } else if j == 23 {
            }
        }
    } else if code == 0x4001 {
        reveal_strlit("ESP_ERR_MESH_WIFI_NOT_START");
        reveal_strlit("[ESP_ERR_MESH_WIFI_NOT_START]: No further error description");
        assert(spec_error_info(code).unwrap().subrange(0, spec_error_name(code).unwrap().len() + 4int)
            =~= seq!['['] + spec_error_name(code).unwrap() + seq![']', ':', ' ']);
        assert(ESP_IDF_ERROR_CODES@[103] == code);
        let name = spec_error_name(code).unwrap();
        assert(name.subrange(0, 4) =~= seq!['E', 'S', 'P', '_']);
        assert(name.subrange(0, 8) =~= seq!['E', 'S', 'P', '_', 'E', 'R', 'R', '_']);
        assert forall|j: int| 0 <= j < name.len() implies is_name_char(#[trigger] name[j]) by {
            if j == 0 {
            } else if j == 1 {
            } else if j == 2 {
            } else if j == 3 {
            } else if j == 4 {
            } else if j == 5 {
            } else if j == 6 {
            } else if j == 7 {
            } else if j == 8 {
            } else if j == 9 {
            } else if j == 10 {
            } else if j == 11 {
            } else if j == 12 {
            } else if j == 13 {
            } else if j == 14 {
            } else if j == 15 {
            } else if j == 16 {
            } else if j == 17 {
            } else if j == 18 {
            } else if j == 19 {
            } else if j == 20 {
            } else if j == 21 {
            } else if j == 22 {
            } else if j == 23 {
            } else if j == 24 {
            } else if j == 25 {
            } else if j == 26 {
            }
        }
    } else if code == 0x4002 {
        reveal_strlit("ESP_ERR_MESH_NOT_INIT");
        reveal_strlit("[ESP_ERR_MESH_NOT_INIT]: No further error description");
        assert(spec_error_info(code).unwrap().subrange(0, spec_error_name(code).unwrap().len() + 4int)
            =~= seq!['['] + spec_error_name(code).unwrap() + seq![']', ':', ' ']);
        assert(ESP_IDF_ERROR_CODES@[104] == code);
        let name = spec_error_name(code).unwrap();
        assert(name.subrange(0, 4) =~= seq!['E', 'S', 'P', '_']);
        assert(name.subrange(0, 8) =~= seq!['E', 'S', 'P', '_', 'E', 'R', 'R', '_']);
        assert forall|j: int| 0 <= j < name.len() implies is_name_char(#[trigger] name[j]) by {
            if j == 0 {
            } else if j == 1 {
            } else if j == 2 {
            } else if j == 3 {
            } else if j == 4 {
            } else if j == 5 {
            } else if j == 6 {
            } else if j == 7 {
            } else if j == 8 {
            } else if j == 9 {
            } else if j == 10 {
            } else if j == 11 {
            } else if j == 12 {
            } else if j == 13 {
            } else if j == 14 {
            } else if j == 15 {
            } else if j == 16 {
            } else if j == 17 {
            } else if j == 18 {
            } else if j == 19 {
            } else if j == 20 {
            }
        }
    } else if code == 0x4003 {
        reveal_strlit("ESP_ERR_MESH_NOT_CONFIG");
        reveal_strlit("[ESP_ERR_MESH_NOT_CONFIG]: No further error description");
        assert(spec_error_info(code).unwrap().subrange(0, spec_error_name(code).unwrap().len() + 4int)
            =~= seq!['['] + spec_error_name(code).unwrap() + seq![']', ':', ' ']);
        assert(ESP_IDF_ERROR_CODES@[105] == code);
        let name = spec_error_name(code).unwrap();
        assert(name.subrange(0, 4) =~= seq!['E', 'S', 'P', '_']);
        assert(name.subrange(0, 8) =~= seq!['E', 'S', 'P', '_', 'E', 'R', 'R', '_']);
        assert forall|j: int| 0 <= j < name.len() implies is_name_char(#[trigger] name[j]) by {
            if j == 0 {
            } else if j == 1 {
            } else if j == 2 {
            } else if j == 3 {
            } else if j == 4 {
            } else if j == 5 {
            } else if j == 6 {
            } else if j == 7 {
            } else if j == 8 {
            } else if j == 9 {
            } else if j == 10 {
            } else if j == 11 {
            } else if j == 12 {
            } else if j == 13 {
            } else if j == 14 {
            } else if j == 15 {
            } else if j == 16 {
            } else if j == 17 {
            } else if j == 18 {
            } else if j == 19 {
            } else if j == 20 {
            } else if j == 21 {
            } else if j == 22 {
            }
        }
    } else if code == 0x4004 {
        reveal_strlit("ESP_ERR_MESH_NOT_START");
        reveal_strlit("[ESP_ERR_MESH_NOT_START]: No further error description");
        assert(spec_error_info(code).unwrap().subrange(0, spec_error_name(code).unwrap().len() + 4int)
            =~= seq!['['] + spec_error_name(code).unwrap() + seq![']', ':', ' ']);
        assert(ESP_IDF_ERROR_CODES@[106] == code);
        let name = spec_error_name(code).unwrap();
        assert(name.subrange(0, 4) =~= seq!['E', 'S', 'P', '_']);
        assert(name.subrange(0, 8) =~= seq!['E', 'S', 'P', '_', 'E', 'R', 'R', '_']);
        assert forall|j: int| 0 <= j < name.len() implies is_name_char(#[trigger] name[j]) by {
            if j == 0 {
            } else if j == 1 {
            } else if j == 2 {
            } else if j == 3 {
            } else if j == 4 {
            } else if j == 5 {
            } else if j == 6 {
            } else if j == 7 {
            } else if j == 8 {
            } else if j == 9 {
            } else if j == 10 {
            } else if j == 11 {
            } else if j == 12 {
            } else if j == 13 {
            } else if j == 14 {
            } else if j == 15 {
            } else if j == 16 {
            } else if j == 17 {
            } else if j == 18 {
            } else if j == 19 {
            } else if j == 20 {
            } else if j == 21 {
            }
        }
    } else if code == 0x4005 {
        reveal_strlit("ESP_ERR_MESH_NOT_SUPPORT");
        reveal_strlit("[ESP_ERR_MESH_NOT_SUPPORT]: No further error description");
        assert(spec_error_info(code).unwrap().subrange(0, spec_error_name(code).unwrap().len() + 4int)
            =~= seq!['['] + spec_error_name(code).unwrap() + seq![']', ':', ' ']);
        assert(ESP_IDF_ERROR_CODES@[107] == code);
        let name = spec_error_name(code).unwrap();
        assert(name.subrange(0, 4) =~= seq!['E', 'S', 'P', '_']);
        assert(name.subrange(0, 8) =~= seq!['E', 'S', 'P', '_', 'E', 'R', 'R', '_']);
        assert forall|j: int| 0 <= j < name.len() implies is_name_char(#[trigger] name[j]) by {
            if j == 0 {
            } else if j == 1 {
            } else if j == 2 {
            } else if j == 3 {
            } else if j == 4 {
            } else if j == 5 {
            } else if j == 6 {
            } else if j == 7 {
            } else if j == 8 {
            } else if j == 9 {
            } else if j == 10 {
            } else if j == 11 {
            } else if j == 12 {
            } else if j == 13 {
            } else if j == 14 {
            } else if j == 15 {
            } else if j == 16 {
            } else if j == 17 {
            } else if j == 18 {
            } else if j == 19 {
            } else if j == 20 {
            } else if j == 21 {
            } else if j == 22 {
            } else if j == 23 {
            }
        }
    } else if code == 0x4006 {
        reveal_strlit("ESP_ERR_MESH_NOT_ALLOWED");
        reveal_strlit("[ESP_ERR_MESH_NOT_ALLOWED]: No further error description");
        assert(spec_error_info(code).unwrap().subrange(0, spec_error_name(code).unwrap().len() + 4int)
            =~= seq!['['] + spec_error_name(code).unwrap() + seq![']', ':', ' ']);
        assert(ESP_IDF_ERROR_CODES@[108] == code);
        let name = spec_error_name(code).unwrap();
        assert(name.subrange(0, 4) =~= seq!['E', 'S', 'P', '_']);
        assert(name.subrange(0, 8) =~= seq!['E', 'S', 'P', '_', 'E', 'R', 'R', '_']);
        assert forall|j: int| 0 <= j < name.len() implies is_name_char(#[trigger] name[j]) by {
            if j == 0 {
            } else if j == 1 {
            } else if j == 2 {
            } else if j == 3 {
            } else if j == 4 {
            } else if j == 5 {
            } else if j == 6 {
            } else if j == 7 {
            } else if j == 8 {
            } else if j == 9 {
            } else if j == 10 {
            } else if j == 11 {
            } else if j == 12 {
            } else if j == 13 {
            } else if j == 14 {
            } else if j == 15 {
            } else if j == 16 {
            } else if j == 17 {
            } else if j == 18 {
            } else if j == 19 {
            } else if j == 20 {
            } else if j == 21 {
            } else if j == 22 {
            } else if j == 23 {
            }
        }
    } else if code == 0x4007 {
        reveal_strlit("ESP_ERR_MESH_NO_MEMORY");
        reveal_strlit("[ESP_ERR_MESH_NO_MEMORY]: No further error description");
        assert(spec_error_info(code).unwrap().subrange(0, spec_error_name(code).unwrap().len() + 4int)
            =~= seq!['['] + spec_error_name(code).unwrap() + seq![']', ':', ' ']);
        assert(ESP_IDF_ERROR_CODES@[109] == code);
        let name = spec_error_name(code).unwrap();
        assert(name.subrange(0, 4) =~= seq!['E', 'S', 'P', '_']);
        assert(name.subrange(0, 8) =~= seq!['E', 'S', 'P', '_', 'E', 'R', 'R', '_']);
        assert forall|j: int| 0 <= j < name.len() implies is_name_char(#[trigger] name[j]) by {
            if j == 0 {
            } else if j == 1 {
            } else if j == 2 {
            } else if j == 3 {
            } else if j == 4 {
            } else if j == 5 {
            } else if j == 6 {
            } else if j == 7 {
            } else if j == 8 {
            } else if j == 9 {
            } else if j == 10 {
            } else if j == 11 {
            } else if j == 12 {
            } else if j == 13 {
            } else if j == 14 {
            } else if j == 15 {
            } else if j == 16 {
            } else if j == 17 {
            } else if j == 18 {
            } else if j == 19 {
            } else if j == 20 {
            } else if j == 21 {
            }
        }
    } else if code == 0x4008 {
        reveal_strlit("ESP_ERR_MESH_ARGUMENT");
        reveal_strlit("[ESP_ERR_MESH_ARGUMENT]: No further error description");
        assert(spec_error_info(code).unwrap().subrange(0, spec_error_name(code).unwrap().len() + 4int)
            =~= seq!['['] + spec_error_name(code).unwrap() + seq![']', ':', ' ']);
        assert(ESP_IDF_ERROR_CODES@[110] == code);
        let name = spec_error_name(code).unwrap();
        assert(name.subrange(0, 4) =~= seq!['E', 'S', 'P', '_']);
        assert(name.subrange(0, 8) =~= seq!['E', 'S', 'P', '_', 'E', 'R', 'R', '_']);
        assert forall|j: int| 0 <= j < name.len() implies is_name_char(#[trigger] name[j]) by {
            if j == 0 {
            } else if j == 1 {
            } else if j == 2 {
            } else if j == 3 {
            } else if j == 4 {
            } else if j == 5 {
            } else if j == 6 {
            } else if j == 7 {
            } else if j == 8 {
            } else if j == 9 {
            } else if j == 10 {
            } else if j == 11 {
            } else if j == 12 {
            } else if j == 13 {
            } else if j == 14 {
            } else if j == 15 {
            } else if j == 16 {
            } else if j == 17 {
            } else if j == 18 {
            } else if j == 19 {
            } else if j == 20 {
            }
        }
    } else if code == 0x4009 {
        reveal_strlit("ESP_ERR_MESH_EXCEED_MTU");
        reveal_strlit("[ESP_ERR_MESH_EXCEED_MTU]: No further error description");
        assert(spec_error_info(code).unwrap().subrange(0, spec_error_name(code).unwrap().len() + 4int)
            =~= seq!['['] + spec_error_name(code).unwrap() + seq![']', ':', ' ']);
        assert(ESP_IDF_ERROR_CODES@[111] == code);
        let name = spec_error_name(code).unwrap();
        assert(name.subrange(0, 4) =~= seq!['E', 'S', 'P', '_']);
        assert(name.subrange(0, 8) =~= seq!['E', 'S', 'P', '_', 'E', 'R', 'R', '_']);
        assert forall|j: int| 0 <= j < name.len() implies is_name_char(#[trigger] name[j]) by {
            if j == 0 {
            } else if j == 1 {
            } else if j == 2 {
            } else if j == 3 {
            } else if j == 4 {
            } else if j == 5 {
            } else if j == 6 {
            } else if j == 7 {
            } else if j == 8 {
            } else if j == 9 {
            } else if j == 10 {
            } else if j == 11 {
            } else if j == 12 {
            } else if j == 13 {
            } else if j == 14 {
            } else if j == 15 {
            } else if j == 16 {
            } else if j == 17 {
            } else if j == 18 {
            } else if j == 19 {
            } else if j == 20 {
            } else if j == 21 {
            } else if j == 22 {
            }
        }
    }
}

/// Entries 96 to 111 of `ESP_IDF_ERROR_CODES` are known codes, each below the next.
proof fn lemma_table_indices_6(i: int)
    requires
        96 <= i < 112,
    ensures
        is_error_code(ESP_IDF_ERROR_CODES@[i]),
        ESP_IDF_ERROR_CODES@[i] < ESP_IDF_ERROR_CODES@[i + 1],
{
    if i == 96 {
        assert(ESP_IDF_ERROR_CODES@[i] == 0x306d);
        assert(ESP_IDF_ERROR_CODES@[i + 1] == 0x3097);
    } else if i == 97 {
        assert(ESP_IDF_ERROR_CODES@[i] == 0x3097);
        assert(ESP_IDF_ERROR_CODES@[i + 1] == 0x3098);
    } else if i == 98 {
        assert(ESP_IDF_ERROR_CODES@[i] == 0x3098);
        assert(ESP_IDF_ERROR_CODES@[i + 1] == 0x3099);
    } else if i == 99 {
        assert(ESP_IDF_ERROR_CODES@[i] == 0x3099);
        assert(ESP_IDF_ERROR_CODES@[i + 1] == 0x309a);
    } else if i == 100 {
        assert(ESP_IDF_ERROR_CODES@[i] == 0x309a);
        assert(ESP_IDF_ERROR_CODES@[i + 1] == 0x309b);
    } else if i == 101 {
        assert(ESP_IDF_ERROR_CODES@[i] == 0x309b);
        assert(ESP_IDF_ERROR_CODES@[i + 1] == 0x309c);
    } else if i == 102 {
        assert(ESP_IDF_ERROR_CODES@[i] == 0x309c);
        assert(ESP_IDF_ERROR_CODES@[i + 1] == 0x4001);
    } else if i == 103 {
        assert(ESP_IDF_ERROR_CODES@[i] == 0x4001);
        assert(ESP_IDF_ERROR_CODES@[i + 1] == 0x4002);
    } else if i == 104 {
        assert(ESP_IDF_ERROR_CODES@[i] == 0x4002);
        assert(ESP_IDF_ERROR_CODES@[i + 1] == 0x4003);
    } else if i == 105 {
        assert(ESP_IDF_ERROR_CODES@[i] == 0x4003);
        assert(ESP_IDF_ERROR_CODES@[i + 1] == 0x4004);
    } else if i == 106 {
        assert(ESP_IDF_ERROR_CODES@[i] == 0x4004);
        assert(ESP_IDF_ERROR_CODES@[i + 1] == 0x4005);
    } else if i == 107 {
        assert(ESP_IDF_ERROR_CODES@[i] == 0x4005);
        assert(ESP_IDF_ERROR_CODES@[i + 1] == 0x4006);
    } else if i == 108 {
        assert(ESP_IDF_ERROR_CODES@[i] == 0x4006);
        assert(ESP_IDF_ERROR_CODES@[i + 1] == 0x4007);
    } else if i == 109 {
        assert(ESP_IDF_ERROR_CODES@[i] == 0x4007);
        assert(ESP_IDF_ERROR_CODES@[i + 1] == 0x4008);
    } else if i == 110 {
        assert(ESP_IDF_ERROR_CODES@[i] == 0x4008);
        assert(ESP_IDF_ERROR_CODES@[i + 1] == 0x4009);
    } else if i == 111 {
        assert(ESP_IDF_ERROR_CODES@[i] == 0x4009);
        assert(ESP_IDF_ERROR_CODES@[i + 1] == 0x400a);
    }
}

/// The table facts for every code from `0x400a` to `0x4019`.
proof fn lemma_table_codes_7(code: i32)
    requires
        0x400a <= code <= 0x4019,
    ensures
        table_facts(code),
{
    if code == 0x400a {
        reveal_strlit("ESP_ERR_MESH_TIMEOUT");
        reveal_strlit("[ESP_ERR_MESH_TIMEOUT]: No further error description");
        assert(spec_error_info(code).unwrap().subrange(0, spec_error_name(code).unwrap().len() + 4int)
            =~= seq!['['] + spec_error_name(code).unwrap() + seq![']', ':', ' ']);
        assert(ESP_IDF_ERROR_CODES@[112] == code);
        let name = spec_error_name(code).unwrap();
        assert(name.subrange(0, 4) =~= seq!['E', 'S', 'P', '_']);
        assert(name.subrange(0, 8) =~= seq!['E', 'S', 'P', '_', 'E', 'R', 'R', '_']);
        assert forall|j: int| 0 <= j < name.len() implies is_name_char(#[trigger] name[j]) by {
            if j == 0 {
            } else if j == 1 {
            } else if j == 2 {
            } else if j == 3 {
            } else if j == 4 {
            } else if j == 5 {
            } else if j == 6 {
            } else if j == 7 {
            } else if j == 8 {
            } else if j == 9 {
            } else if j == 10 {
            } else if j == 11 {
            } else if j == 12 {
            } else if j == 13 {
            } else if j == 14 {
            } else if j == 15 {
            } else if j == 16 {
            } else if j == 17 {
            } else if j == 18 {
            } else if j == 19 {
            }
        }
    } else if code == 0x400b {
        reveal_strlit("ESP_ERR_MESH_DISCONNECTED");
        reveal_strlit("[ESP_ERR_MESH_DISCONNECTED]: No further error description");
        assert(spec_error_info(code).unwrap().subrange(0, spec_error_name(code).unwrap().len() + 4int)
            =~= seq!['['] + spec_error_name(code).unwrap() + seq![']', ':', ' ']);
        assert(ESP_IDF_ERROR_CODES@[113] == code);
        let name = spec_error_name(code).unwrap();
        assert(name.subrange(0, 4) =~= seq!['E', 'S', 'P', '_']);
        assert(name.subrange(0, 8) =~= seq!['E', 'S', 'P', '_', 'E', 'R', 'R', '_']);
        assert forall|j: int| 0 <= j < name.len() implies is_name_char(#[trigger] name[j]) by {
            if j == 0 {
            } else if j == 1 {
            } else if j == 2 {
            } else if j == 3 {
            } else if j == 4 {
            } else if j == 5 {
            } else if j == 6 {
            } else if j == 7 {
            } else if j == 8 {
            } else if j == 9 {
            } else if j == 10 {
            } else if j == 11 {
            } else if j == 12 {
            } else if j == 13 {
            } else if j == 14 {
            } else if j == 15 {
            } else if j == 16 {
            } else if j == 17 {
            } else if j == 18 {
            } else if j == 19 {
            } else if j == 20 {
            } else if j == 21 {
            } else if j == 22 {
            } else if j == 23 {
            } else if j == 24 {
            }
        }
    } else if code == 0x400c {
        reveal_strlit("ESP_ERR_MESH_QUEUE_FAIL");
        reveal_strlit("[ESP_ERR_MESH_QUEUE_FAIL]: No further error description");
        assert(spec_error_info(code).unwrap().subrange(0, spec_error_name(code).unwrap().len() + 4int)
            =~= seq!['['] + spec_error_name(code).unwrap() + seq![']', ':', ' ']);
        assert(ESP_IDF_ERROR_CODES@[114] == code);
        let name = spec_error_name(code).unwrap();
        assert(name.subrange(0, 4) =~= seq!['E', 'S', 'P', '_']);
        assert(name.subrange(0, 8) =~= seq!['E', 'S', 'P', '_', 'E', 'R', 'R', '_']);
        assert forall|j: int| 0 <= j < name.len() implies is_name_char(#[trigger] name[j]) by {
            if j == 0 {
            } else if j == 1 {
            } else if j == 2 {
            } else if j == 3 {
            } else if j == 4 {
            } else if j == 5 {
            } else if j == 6 {
            } else if j == 7 {
            } else if j == 8 {
            } else if j == 9 {
            } else if j == 10 {
            } else if j == 11 {
            } else if j == 12 {
            } else if j == 13 {
            } else if j == 14 {
            } else if j == 15 {
            } else if j == 16 {
            } else if j == 17 {
            } else if j == 18 {
            } else if j == 19 {
            } else if j == 20 {
            } else if j == 21 {
            } else if j == 22 {
            }
        }
    } else if code == 0x400d {
        reveal_strlit("ESP_ERR_MESH_QUEUE_FULL");
        reveal_strlit("[ESP_ERR_MESH_QUEUE_FULL]: No further error description");
        assert(spec_error_info(code).unwrap().subrange(0, spec_error_name(code).unwrap().len() + 4int)
            =~= seq!['['] + spec_error_name(code).unwrap() + seq![']', ':', ' ']);
        assert(ESP_IDF_ERROR_CODES@[115] == code);
        let name = spec_error_name(code).unwrap();
        assert(name.subrange(0, 4) =~= seq!['E', 'S', 'P', '_']);
        assert(name.subrange(0, 8) =~= seq!['E', 'S', 'P', '_', 'E', 'R', 'R', '_']);
        assert forall|j: int| 0 <= j < name.len() implies is_name_char(#[trigger] name[j]) by {
            if j == 0 {
            } else if j == 1 {
            } else if j == 2 {
            } else if j == 3 {
            } else if j == 4 {
            } else if j == 5 {
            } else if j == 6 {
            } else if j == 7 {
            } else if j == 8 {
            } else if j == 9 {
            } else if j == 10 {
            } else if j == 11 {
            } else if j == 12 {
            } else if j == 13 {
            } else if j == 14 {
            } else if j == 15 {
            } else if j == 16 {
            } else if j == 17 {
            } else if j == 18 {
            } else if j == 19 {
            } else if j == 20 {
            } else if j == 21 {
            } else if j == 22 {
            }
        }
    } else if code == 0x400e {
        reveal_strlit("ESP_ERR_MESH_NO_PARENT_FOUND");
        reveal_strlit("[ESP_ERR_MESH_NO_PARENT_FOUND]: No further error description");
        assert(spec_error_info(code).unwrap().subrange(0, spec_error_name(code).unwrap().len() + 4int)
            =~= seq!['['] + spec_error_name(code).unwrap() + seq![']', ':', ' ']);
        assert(ESP_IDF_ERROR_CODES@[116] == code);
        let name = spec_error_name(code).unwrap();
        assert(name.subrange(0, 4) =~= seq!['E', 'S', 'P', '_']);
        assert(name.subrange(0, 8) =~= seq!['E', 'S', 'P', '_', 'E', 'R', 'R', '_']);
        assert forall|j: int| 0 <= j < name.len() implies is_name_char(#[trigger] name[j]) by {
            if j == 0 {
            } else if j == 1 {
            } else if j == 2 {
            } else if j == 3 {
            } else if j == 4 {
            } else if j == 5 {
            } else if j == 6 {
            } else if j == 7 {
            } else if j == 8 {
            } else if j == 9 {
            } else if j == 10 {
            } else if j == 11 {
            } else if j == 12 {
            } else if j == 13 {
            } else if j == 14 {
            } else if j == 15 {
            } else if j == 16 {
            } else if j == 17 {
            } else if j == 18 {
            } else if j == 19 {
            } else if j == 20 {
            } else if j == 21 {
            } else if j == 22 {
            } else if j == 23 {
            } else if j == 24 {
            } else if j == 25 {
            } else if j == 26 {
            } else if j == 27 {
            }
        }
    } else if code == 0x400f {
        reveal_strlit("ESP_ERR_MESH_NO_ROUTE_FOUND");
        reveal_strlit("[ESP_ERR_MESH_NO_ROUTE_FOUND]: No further error description");
        assert(spec_error_info(code).unwrap().subrange(0, spec_error_name(code).unwrap().len() + 4int)
            =~= seq!['['] + spec_error_name(code).unwrap() + seq![']', ':', ' ']);
        assert(ESP_IDF_ERROR_CODES@[117] == code);
        let name = spec_error_name(code).unwrap();
        assert(name.subrange(0, 4) =~= seq!['E', 'S', 'P', '_']);
        assert(name.subrange(0, 8) =~= seq!['E', 'S', 'P', '_', 'E', 'R', 'R', '_']);
        assert forall|j: int| 0 <= j < name.len() implies is_name_char(#[trigger] name[j]) by {
            if j == 0 {
            } else if j == 1 {
            } else if j == 2 {
            } else if j == 3 {
            } else if j == 4 {
            } else if j == 5 {
            } else if j == 6 {
            } else if j == 7 {
            } else if j == 8 {
            } else if j == 9 {
            } else if j == 10 {
            } else if j == 11 {
            } else if j == 12 {
            } else if j == 13 {
            } else if j == 14 {
            } else if j == 15 {
            } else if j == 16 {
            } else if j == 17 {
            } else if j == 18 {
            } else if j == 19 {
            } else if j == 20 {
            } else if j == 21 {
            } else if j == 22 {
            } else if j == 23 {
            } else if j == 24 {
            } else if j == 25 {
            } else if j == 26 {
            }
        }
    } else if code == 0x4010 {
        reveal_strlit("ESP_ERR_MESH_OPTION_NULL");
        reveal_strlit("[ESP_ERR_MESH_OPTION_NULL]: No further error description");
        assert(spec_error_info(code).unwrap().subrange(0, spec_error_name(code).unwrap().len() + 4int)
            =~= seq!['['] + spec_error_name(code).unwrap() + seq![']', ':', ' ']);
        assert(ESP_IDF_ERROR_CODES@[118] == code);
        let name = spec_error_name(code).unwrap();
        assert(name.subrange(0, 4) =~= seq!['E', 'S', 'P', '_']);
        assert(name.subrange(0, 8) =~= seq!['E', 'S', 'P', '_', 'E', 'R', 'R', '_']);
        assert forall|j: int| 0 <= j < name.len() implies is_name_char(#[trigger] name[j]) by {
            if j == 0 {
            } else if j == 1 {
            } else if j == 2 {
            } else if j == 3 {
            } else if j == 4 {
            } else if j == 5 {
            } else if j == 6 {
            } else if j == 7 {
            } else if j == 8 {
            } else if j == 9 {
            } else if j == 10 {
            } else if j == 11 {
            } else if j == 12 {
            } else if j == 13 {
            } else if j == 14 {
            } else if j == 15 {
            } else if j == 16 {
            } else if j == 17 {
            } else if j == 18 {
            } else if j == 19 {
            } else if j == 20 {
            } else if j == 21 {
            } else if j == 22 {
            } else if j == 23 {
            }
        }
    } else if code == 0x4011 {
        reveal_strlit("ESP_ERR_MESH_OPTION_UNKNOWN");
        reveal_strlit("[ESP_ERR_MESH_OPTION_UNKNOWN]: No further error description");
        assert(spec_error_info(code).unwrap().subrange(0, spec_error_name(code).unwrap().len() + 4int)
            =~= seq!['['] + spec_error_name(code).unwrap() + seq![']', ':', ' ']);
        assert(ESP_IDF_ERROR_CODES@[119] == code);
        let name = spec_error_name(code).unwrap();
        assert(name.subrange(0, 4) =~= seq!['E', 'S', 'P', '_']);
        assert(name.subrange(0, 8) =~= seq!['E', 'S', 'P', '_', 'E', 'R', 'R', '_']);
        assert forall|j: int| 0 <= j < name.len() implies is_name_char(#[trigger] name[j]) by {
            if j == 0 {
            } else if j == 1 {
            } else if j == 2 {
            } else if j == 3 {
            } else if j == 4 {
            } else if j == 5 {
            } else if j == 6 {
            } else if j == 7 {
            } else if j == 8 {
            } else if j == 9 {
            } else if j == 10 {
            } else if j == 11 {
            } else if j == 12 {
            } else if j == 13 {
            } else if j == 14 {
            } else if j == 15 {
            } else if j == 16 {
            } else if j == 17 {
            } else if j == 18 {
            } else if j == 19 {
            } else if j == 20 {
            } else if j == 21 {
            } else if j == 22 {
            } else if j == 23 {
            } else if j == 24 {
            } else if j == 25 {
            } else if j == 26 {
            }
        }
    } else if code == 0x4012 {
        reveal_strlit("ESP_ERR_MESH_XON_NO_WINDOW");
        reveal_strlit("[ESP_ERR_MESH_XON_NO_WINDOW]: No further error description");
        assert(spec_error_info(code).unwrap().subrange(0, spec_error_name(code).unwrap().len() + 4int)
            =~= seq!['['] + spec_error_name(code).unwrap() + seq![']', ':', ' ']);
        assert(ESP_IDF_ERROR_CODES@[120] == code);
        let name = spec_error_name(code).unwrap();
        assert(name.subrange(0, 4) =~= seq!['E', 'S', 'P', '_']);
        assert(name.subrange(0, 8) =~= seq!['E', 'S', 'P', '_', 'E', 'R', 'R', '_']);
        assert forall|j: int| 0 <= j < name.len() implies is_name_char(#[trigger] name[j]) by {
            if j == 0 {
            } else if j == 1 {
            } else if j == 2 {
            } else if j == 3 {
            } else if j == 4 {
            } else if j == 5 {
            } else if j == 6 {
            } else if j == 7 {
            } else if j == 8 {
            } else if j == 9 {
            } else if j == 10 {
            } else if j == 11 {
            } else if j == 12 {
            } else if j == 13 {
            } else if j == 14 {
            } else if j == 15 {
            } else if j == 16 {
            } else if j == 17 {
            } else if j == 18 {
            } else if j == 19 {
            } else if j == 20 {
            } else if j == 21 {
            } else if j == 22 {
            } else if j == 23 {
            } else if j == 24 {
            } else if j == 25 {
            }
        }
    } else if code == 0x4013 {
        reveal_strlit("ESP_ERR_MESH_INTERFACE");
        reveal_strlit("[ESP_ERR_MESH_INTERFACE]: No further error description");
        assert(spec_error_info(code).unwrap().subrange(0, spec_error_name(code).unwrap().len() + 4int)
            =~= seq!['['] + spec_error_name(code).unwrap() + seq![']', ':', ' ']);
        assert(ESP_IDF_ERROR_CODES@[121] == code);
        let name = spec_error_name(code).unwrap();
        assert(name.subrange(0, 4) =~= seq!['E', 'S', 'P', '_']);
        assert(name.subrange(0, 8) =~= seq!['E', 'S', 'P', '_', 'E', 'R', 'R', '_']);
        assert forall|j: int| 0 <= j < name.len() implies is_name_char(#[trigger] name[j]) by {
            if j == 0 {
            } else if j == 1 {
            } else if j == 2 {
            } else if j == 3 {
            } else if j == 4 {
            } else if j == 5 {
            } else if j == 6 {
            } else if j == 7 {
            } else if j == 8 {
            } else if j == 9 {
            } else if j == 10 {
            } else if j == 11 {
            } else if j == 12 {
            } else if j == 13 {
            } else if j == 14 {
            } else if j == 15 {
            } else if j == 16 {
            } else if j == 17 {
            } else if j == 18 {
            } else if j == 19 {
            } else if j == 20 {
            } else if j == 21 {
            }
        }
    } else if code == 0x4014 {
        reveal_strlit("ESP_ERR_MESH_DISCARD_DUPLICATE");
        reveal_strlit("[ESP_ERR_MESH_DISCARD_DUPLICATE]: No further error description");
        assert(spec_error_info(code).unwrap().subrange(0, spec_error_name(code).unwrap().len() + 4int)
            =~= seq!['['] + spec_error_name(code).unwrap() + seq![']', ':', ' ']);
        assert(ESP_IDF_ERROR_CODES@[122] == code);
        let name = spec_error_name(code).unwrap();
        assert(name.subrange(0, 4) =~= seq!['E', 'S', 'P', '_']);
        assert(name.subrange(0, 8) =~= seq!['E', 'S', 'P', '_', 'E', 'R', 'R', '_']);
        assert forall|j: int| 0 <= j < name.len() implies is_name_char(#[trigger] name[j]) by {
            if j == 0 {
            } else if j == 1 {
            } else if j == 2 {
            } else if j == 3 {
            } else if j == 4 {
            } else if j == 5 {
            } else if j == 6 {
            } else if j == 7 {
            } else if j == 8 {
            } else if j == 9 {
            } else if j == 10 {
            } else if j == 11 {
            } else if j == 12 {
            } else if j == 13 {
            } else if j == 14 {
            } else if j == 15 {
            } else if j == 16 {
            } else if j == 17 {
            } else if j == 18 {
            } else if j == 19 {
            } else if j == 20 {
            } else if j == 21 {
            } else if j == 22 {
            } else if j == 23 {
            } else if j == 24 {
            } else if j == 25 {
            } else if j == 26 {
            } else if j == 27 {
            } else if j == 28 {
            } else if j == 29 {
            }
        }
    } else if code == 0x4015 {
        reveal_strlit("ESP_ERR_MESH_DISCARD");
        reveal_strlit("[ESP_ERR_MESH_DISCARD]: No further error description");
        assert(spec_error_info(code).unwrap().subrange(0, spec_error_name(code).unwrap().len() + 4int)
            =~= seq!['['] + spec_error_name(code).unwrap() + seq![']', ':', ' ']);
        assert(ESP_IDF_ERROR_CODES@[123] == code);
        let name = spec_error_name(code).unwrap();
        assert(name.subrange(0, 4) =~= seq!['E', 'S', 'P', '_']);
        assert(name.subrange(0, 8) =~= seq!['E', 'S', 'P', '_', 'E', 'R', 'R', '_']);
        assert forall|j: int| 0 <= j < name.len() implies is_name_char(#[trigger] name[j]) by {
            if j == 0 {
            } else if j == 1 {
            } else if j == 2 {
            } else if j == 3 {
            } else if j == 4 {
            } else if j == 5 {
            } else if j == 6 {
            } else if j == 7 {
            } else if j == 8 {
            } else if j == 9 {
            } else if j == 10 {
            } else if j == 11 {
            } else if j == 12 {
            } else if j == 13 {
            } else if j == 14 {
            } else if j == 15 {
            } else if j == 16 {
            } else if j == 17 {
            } else if j == 18 {
            } else if j == 19 {
            }
        }
    } else if code == 0x4016 {
        reveal_strlit("ESP_ERR_MESH_VOTING");
        reveal_strlit("[ESP_ERR_MESH_VOTING]: No further error description");
        assert(spec_error_info(code).unwrap().subrange(0, spec_error_name(code).unwrap().len() + 4int)
            =~= seq!['['] + spec_error_name(code).unwrap() + seq![']', ':', ' ']);
        assert(ESP_IDF_ERROR_CODES@[124] == code);
        let name = spec_error_name(code).unwrap();
        assert(name.subrange(0, 4) =~= seq!['E', 'S', 'P', '_']);
        assert(name.subrange(0, 8) =~= seq!['E', 'S', 'P', '_', 'E', 'R', 'R', '_']);
        assert forall|j: int| 0 <= j < name.len() implies is_name_char(#[trigger] name[j]) by {
            if j == 0 {
            } else if j == 1 {
            } else if j == 2 {
            } else if j == 3 {
            } else if j == 4 {
            } else if j == 5 {
            } else if j == 6 {
            } else if j == 7 {
            } else if j == 8 {
            } else if j == 9 {
            } else if j == 10 {
            } else if j == 11 {
            } else if j == 12 {
            } else if j == 13 {
            } else if j == 14 {
            } else if j == 15 {
            } else if j == 16 {
            } else if j == 17 {
            } else if j == 18 {
            }
        }
    } else if code == 0x4017 {
        reveal_strlit("ESP_ERR_MESH_XMIT");
        reveal_strlit("[ESP_ERR_MESH_XMIT]: No further error description");
        assert(spec_error_info(code).unwrap().subrange(0, spec_error_name(code).unwrap().len() + 4int)
            =~= seq!['['] + spec_error_name(code).unwrap() + seq![']', ':', ' ']);
        assert(ESP_IDF_ERROR_CODES@[125] == code);
        let name = spec_error_name(code).unwrap();
        assert(name.subrange(0, 4) =~= seq!['E', 'S', 'P', '_']);
        assert(name.subrange(0, 8) =~= seq!['E', 'S', 'P', '_', 'E', 'R', 'R', '_']);
        assert forall|j: int| 0 <= j < name.len() implies is_name_char(#[trigger] name[j]) by {
            if j == 0 {
            } else if j == 1 {
            } else if j == 2 {
            } else if j == 3 {
            } else if j == 4 {
            } else if j == 5 {
            } else if j == 6 {
            } else if j == 7 {
            } else if j == 8 {
            } else if j == 9 {
            } else if j == 10 {
            } else if j == 11 {
            } else if j == 12 {
            } else if j == 13 {
            } else if j == 14 {
            } else if j == 15 {
            } else if j == 16 {
            }
        }
    } else if code == 0x4018 {
        reveal_strlit("ESP_ERR_MESH_QUEUE_READ");
        reveal_strlit("[ESP_ERR_MESH_QUEUE_READ]: No further error description");
        assert(spec_error_info(code).unwrap().subrange(0, spec_error_name(code).unwrap().len() + 4int)
            =~= seq!['['] + spec_error_name(code).unwrap() + seq![']', ':', ' ']);
        assert(ESP_IDF_ERROR_CODES@[126] == code);
        let name = spec_error_name(code).unwrap();
        assert(name.subrange(0, 4) =~= seq!['E', 'S', 'P', '_']);
        assert(name.subrange(0, 8) =~= seq!['E', 'S', 'P', '_', 'E', 'R', 'R', '_']);
        assert forall|j: int| 0 <= j < name.len() implies is_name_char(#[trigger] name[j]) by {
            if j == 0 {
            } else if j == 1 {
            } else if j == 2 {
            } else if j == 3 {
            } else if j == 4 {
            } else if j == 5 {
            } else if j == 6 {
            } else if j == 7 {
            } else if j == 8 {
            } else if j == 9 {
            } else if j == 10 {
            } else if j == 11 {
            } else if j == 12 {
            } else if j == 13 {
            } else if j == 14 {
            } else if j == 15 {
            } else if j == 16 {
            } else if j == 17 {
            } else if j == 18 {
            } else if j == 19 {
            } else if j == 20 {
            } else if j == 21 {
            } else if j == 22 {
            }
        }
    } else if code == 0x4019 {
        reveal_strlit("ESP_ERR_MESH_PS");
        reveal_strlit("[ESP_ERR_MESH_PS]: No further error description");
        assert(spec_error_info(code).unwrap().subrange(0, spec_error_name(code).unwrap().len() + 4int)
            =~= seq!['['] + spec_error_name(code).unwrap() + seq![']', ':', ' ']);
        assert(ESP_IDF_ERROR_CODES@[127] == code);
        let name = spec_error_name(code).unwrap();
        assert(name.subrange(0, 4) =~= seq!['E', 'S', 'P', '_']);
        assert(name.subrange(0, 8) =~= seq!['E', 'S', 'P', '_', 'E', 'R', 'R', '_']);
        assert forall|j: int| 0 <= j < name.len() implies is_name_char(#[trigger] name[j]) by {
            if j == 0 {
            } else if j == 1 {
            } else if j == 2 {
            } else if j == 3 {
            } else if j == 4 {
            } else if j == 5 {
            } else if j == 6 {
            } else if j == 7 {
            } else if j == 8 {
            } else if j == 9 {
            } else if j == 10 {
            } else if j == 11 {
            } else if j == 12 {
            } else if j == 13 {
            } else if j == 14 {
            }
        }
    }
}

/// Entries 112 to 127 of `ESP_IDF_ERROR_CODES` are known codes, each below the next.
proof fn lemma_table_indices_7(i: int)
    requires
        112 <= i < 128,
    ensures
        is_error_code(ESP_IDF_ERROR_CODES@[i]),
        ESP_IDF_ERROR_CODES@[i] < ESP_IDF_ERROR_CODES@[i + 1],
{
    if i == 112 {
        assert(ESP_IDF_ERROR_CODES@[i] == 0x400a);
        assert(ESP_IDF_ERROR_CODES@[i + 1] == 0x400b);
    } else if i == 113 {
        assert(ESP_IDF_ERROR_CODES@[i] == 0x400b);
        assert(ESP_IDF_ERROR_CODES@[i + 1] == 0x400c);
    } else if i == 114 {
        assert(ESP_IDF_ERROR_CODES@[i] == 0x400c);
        assert(ESP_IDF_ERROR_CODES@[i + 1] == 0x400d);
    } else if i == 115 {
        assert(ESP_IDF_ERROR_CODES@[i] == 0x400d);
        assert(ESP_IDF_ERROR_CODES@[i + 1] == 0x400e);
    } else if i == 116 {
        assert(ESP_IDF_ERROR_CODES@[i] == 0x400e);
        assert(ESP_IDF_ERROR_CODES@[i + 1] == 0x400f);
    } else if i == 117 {
        assert(ESP_IDF_ERROR_CODES@[i] == 0x400f);
        assert(ESP_IDF_ERROR_CODES@[i + 1] == 0x4010);
    } else if i == 118 {
        assert(ESP_IDF_ERROR_CODES@[i] == 0x4010);
        assert(ESP_IDF_ERROR_CODES@[i + 1] == 0x4011);
    } else if i == 119 {
        assert(ESP_IDF_ERROR_CODES@[i] == 0x4011);
        assert(ESP_IDF_ERROR_CODES@[i + 1] == 0x4012);
    } else if i == 120 {
        assert(ESP_IDF_ERROR_CODES@[i] == 0x4012);
        assert(ESP_IDF_ERROR_CODES@[i + 1] == 0x4013);
    } else if i == 121 {
        assert(ESP_IDF_ERROR_CODES@[i] == 0x4013);
        assert(ESP_IDF_ERROR_CODES@[i + 1] == 0x4014);
    } else if i == 122 {
        assert(ESP_IDF_ERROR_CODES@[i] == 0x4014);
        assert(ESP_IDF_ERROR_CODES@[i + 1] == 0x4015);
    } else if i == 123 {
        assert(ESP_IDF_ERROR_CODES@[i] == 0x4015);
        assert(ESP_IDF_ERROR_CODES@[i + 1] == 0x4016);
    } else if i == 124 {
        assert(ESP_IDF_ERROR_CODES@[i] == 0x4016);
        assert(ESP_IDF_ERROR_CODES@[i + 1] == 0x4017);
    } else if i == 125 {
        assert(ESP_IDF_ERROR_CODES@[i] == 0x4017);
        assert(ESP_IDF_ERROR_CODES@[i + 1] == 0x4018);
    } else if i == 126 {
        assert(ESP_IDF_ERROR_CODES@[i] == 0x4018);
        assert(ESP_IDF_ERROR_CODES@[i + 1] == 0x4019);
    } else if i == 127 {
        assert(ESP_IDF_ERROR_CODES@[i] == 0x4019);
        assert(ESP_IDF_ERROR_CODES@[i + 1] == 0x401a);
    }
}

/// The table facts for every code from `0x401a` to `0x6001`.
proof fn lemma_table_codes_8(code: i32)
    requires
        0x401a <= code <= 0x6001,
    ensures
        table_facts(code),
{
    if code == 0x401a {
        reveal_strlit("ESP_ERR_MESH_RECV_RELEASE");
        reveal_strlit("[ESP_ERR_MESH_RECV_RELEASE]: No further error description");
        assert(spec_error_info(code).unwrap().subrange(0, spec_error_name(code).unwrap().len() + 4int)
            =~= seq!['['] + spec_error_name(code).unwrap() + seq![']', ':', ' ']);
        assert(ESP_IDF_ERROR_CODES@[128] == code);
        let name = spec_error_name(code).unwrap();
        assert(name.subrange(0, 4) =~= seq!['E', 'S', 'P', '_']);
        assert(name.subrange(0, 8) =~= seq!['E', 'S', 'P', '_', 'E', 'R', 'R', '_']);
        assert forall|j: int| 0 <= j < name.len() implies is_name_char(#[trigger] name[j]) by {
            if j == 0 {
            } else if j == 1 {
            } else if j == 2 {
            } else if j == 3 {
            } else if j == 4 {
            } else if j == 5 {
            } else if j == 6 {
            } else if j == 7 {
            } else if j == 8 {
            } else if j == 9 {
            } else if j == 10 {
            } else if j == 11 {
            } else if j == 12 {
            } else if j == 13 {
            } else if j == 14 {
            } else if j == 15 {
            } else if j == 16 {
            } else if j == 17 {
            } else if j == 18 {
            } else if j == 19 {
            } else if j == 20 {
            } else if j == 21 {
            } else if j == 22 {
            } else if j == 23 {
            } else if j == 24 {
            }
        }
    } else if code == 0x5001 {
        reveal_strlit("ESP_ERR_ESP_NETIF_INVALID_PARAMS");
        reveal_strlit("[ESP_ERR_ESP_NETIF_INVALID_PARAMS]: No further error description");
        assert(spec_error_info(code).unwrap().subrange(0, spec_error_name(code).unwrap().len() + 4int)
            =~= seq!['['] + spec_error_name(code).unwrap() + seq![']', ':', ' ']);
        assert(ESP_IDF_ERROR_CODES@[129] == code);
        let name = spec_error_name(code).unwrap();
        assert(name.subrange(0, 4) =~= seq!['E', 'S', 'P', '_']);
        assert(name.subrange(0, 8) =~= seq!['E', 'S', 'P', '_', 'E', 'R', 'R', '_']);
        assert forall|j: int| 0 <= j < name.len() implies is_name_char(#[trigger] name[j]) by {
            if j == 0 {
            } else if j == 1 {
            } else if j == 2 {
            } else if j == 3 {
            } else if j == 4 {
            } else if j == 5 {
            } else if j == 6 {
            } else if j == 7 {
            } else if j == 8 {
            } else if j == 9 {
            } else if j == 10 {
            } else if j == 11 {
            } else if j == 12 {
            } else if j == 13 {
            } else if j == 14 {
            } else if j == 15 {
            } else if j == 16 {
            } else if j == 17 {
            } else if j == 18 {
            } else if j == 19 {
            } else if j == 20 {
            } else if j == 21 {
            } else if j == 22 {
            } else if j == 23 {
            } else if j == 24 {
            } else if j == 25 {
            } else if j == 26 {
            } else if j == 27 {
            } else if j == 28 {
            } else if j == 29 {
            } else if j == 30 {
            } else if j == 31 {
            }
        }
    } else if code == 0x5002 {
        reveal_strlit("ESP_ERR_ESP_NETIF_IF_NOT_READY");
        reveal_strlit("[ESP_ERR_ESP_NETIF_IF_NOT_READY]: No further error description");
        assert(spec_error_info(code).unwrap().subrange(0, spec_error_name(code).unwrap().len() + 4int)
            =~= seq!['['] + spec_error_name(code).unwrap() + seq![']', ':', ' ']);
        assert(ESP_IDF_ERROR_CODES@[130] == code);
        let name = spec_error_name(code).unwrap();
        assert(name.subrange(0, 4) =~= seq!['E', 'S', 'P', '_']);
        assert(name.subrange(0, 8) =~= seq!['E', 'S', 'P', '_', 'E', 'R', 'R', '_']);
        assert forall|j: int| 0 <= j < name.len() implies is_name_char(#[trigger] name[j]) by {
            if j == 0 {
            } else if j == 1 {
            } else if j == 2 {
            } else if j == 3 {
            } else if j == 4 {
            } else if j == 5 {
            } else if j == 6 {
            } else if j == 7 {
            } else if j == 8 {
            } else if j == 9 {
            } else if j == 10 {
            } else if j == 11 {
            } else if j == 12 {
            } else if j == 13 {
            } else if j == 14 {
            } else if j == 15 {
            } else if j == 16 {
            } else if j == 17 {
            } else if j == 18 {
            } else if j == 19 {
            } else if j == 20 {
            } else if j == 21 {
            } else if j == 22 {
            } else if j == 23 {
            } else if j == 24 {
            } else if j == 25 {
            } else if j == 26 {
            } else if j == 27 {
            } else if j == 28 {
            } else if j == 29 {
            }
        }
    } else if code == 0x5003 {
        reveal_strlit("ESP_ERR_ESP_NETIF_DHCPC_START_FAILED");
        reveal_strlit("[ESP_ERR_ESP_NETIF_DHCPC_START_FAILED]: No further error description");
        assert(spec_error_info(code).unwrap().subrange(0, spec_error_name(code).unwrap().len() + 4int)
            =~= seq!['['] + spec_error_name(code).unwrap() + seq![']', ':', ' ']);
        assert(ESP_IDF_ERROR_CODES@[131] == code);
        let name = spec_error_name(code).unwrap();
        assert(name.subrange(0, 4) =~= seq!['E', 'S', 'P', '_']);
        assert(name.subrange(0, 8) =~= seq!['E', 'S', 'P', '_', 'E', 'R', 'R', '_']);
        assert forall|j: int| 0 <= j < name.len() implies is_name_char(#[trigger] name[j]) by {
            if j == 0 {
            } else if j == 1 {
            } else if j == 2 {
            } else if j == 3 {
            } else if j == 4 {
            } else if j == 5 {
            } else if j == 6 {
            } else if j == 7 {
            } else if j == 8 {
            } else if j == 9 {
            } else if j == 10 {
            } else if j == 11 {
            } else if j == 12 {
            } else if j == 13 {
            } else if j == 14 {
            } else if j == 15 {
            } else if j == 16 {
            } else if j == 17 {
            } else if j == 18 {
            } else if j == 19 {
            } else if j == 20 {
            } else if j == 21 {
            } else if j == 22 {
            } else if j == 23 {
            } else if j == 24 {
            } else if j == 25 {
            } else if j == 26 {
            } else if j == 27 {
            } else if j == 28 {
            } else if j == 29 {
            } else if j == 30 {
            } else if j == 31 {
            } else if j == 32 {
            } else if j == 33 {
            } else if j == 34 {
            } else if j == 35 {
            }
        }
    } else if code == 0x5004 {
        reveal_strlit("ESP_ERR_ESP_NETIF_DHCP_ALREADY_STARTED");
        reveal_strlit("[ESP_ERR_ESP_NETIF_DHCP_ALREADY_STARTED]: No further error description");
        assert(spec_error_info(code).unwrap().subrange(0, spec_error_name(code).unwrap().len() + 4int)
            =~= seq!['['] + spec_error_name(code).unwrap() + seq![']', ':', ' ']);
        assert(ESP_IDF_ERROR_CODES@[132] == code);
        let name = spec_error_name(code).unwrap();
        assert(name.subrange(0, 4) =~= seq!['E', 'S', 'P', '_']);
        assert(name.subrange(0, 8) =~= seq!['E', 'S', 'P', '_', 'E', 'R', 'R', '_']);
        assert forall|j: int| 0 <= j < name.len() implies is_name_char(#[trigger] name[j]) by {
            if j == 0 {
            } else if j == 1 {
            } else if j == 2 {
            } else if j == 3 {
            } else if j == 4 {
            } else if j == 5 {
            } else if j == 6 {
            } else if j == 7 {
            } else if j == 8 {
            } else if j == 9 {
            } else if j == 10 {
            } else if j == 11 {
            } else if j == 12 {
            } else if j == 13 {
            } else if j == 14 {
            } else if j == 15 {
            } else if j == 16 {
            } else if j == 17 {
            } else if j == 18 {
            } else if j == 19 {
            } else if j == 20 {
            } else if j == 21 {
            } else if j == 22 {
            } else if j == 23 {
            } else if j == 24 {
            } else if j == 25 {
            } else if j == 26 {
            } else if j == 27 {
            } else if j == 28 {
            } else if j == 29 {
            } else if j == 30 {
            } else if j == 31 {
            } else if j == 32 {
            } else if j == 33 {
            } else if j == 34 {
            } else if j == 35 {
            } else if j == 36 {
            } else if j == 37 {
            }
        }
    } else if code == 0x5005 {
        reveal_strlit("ESP_ERR_ESP_NETIF_DHCP_ALREADY_STOPPED");
        reveal_strlit("[ESP_ERR_ESP_NETIF_DHCP_ALREADY_STOPPED]: No further error description");
        assert(spec_error_info(code).unwrap().subrange(0, spec_error_name(code).unwrap().len() + 4int)
            =~= seq!['['] + spec_error_name(code).unwrap() + seq![']', ':', ' ']);
        assert(ESP_IDF_ERROR_CODES@[133] == code);
        let name = spec_error_name(code).unwrap();
        assert(name.subrange(0, 4) =~= seq!['E', 'S', 'P', '_']);
        assert(name.subrange(0, 8) =~= seq!['E', 'S', 'P', '_', 'E', 'R', 'R', '_']);
        assert forall|j: int| 0 <= j < name.len() implies is_name_char(#[trigger] name[j]) by {
            if j == 0 {
            } else if j == 1 {
            } else if j == 2 {
            } else if j == 3 {
            } else if j == 4 {
            } else if j == 5 {
            } else if j == 6 {
            } else if j == 7 {
            } else if j == 8 {
            } else if j == 9 {
            } else if j == 10 {
            } else if j == 11 {
            } else if j == 12 {
            } else if j == 13 {
            } else if j == 14 {
            } else if j == 15 {
            } else if j == 16 {
            } else if j == 17 {
            } else if j == 18 {
            } else if j == 19 {
            } else if j == 20 {
            } else if j == 21 {
            } else if j == 22 {
            } else if j == 23 {
            } else if j == 24 {
            } else if j == 25 {
            } else if j == 26 {
            } else if j == 27 {
            } else if j == 28 {
            } else if j == 29 {
            } else if j == 30 {
            } else if j == 31 {
            } else if j == 32 {
            } else if j == 33 {
            } else if j == 34 {
            } else if j == 35 {
            } else if j == 36 {
            } else if j == 37 {
            }
        }
    } else if code == 0x5006 {
        reveal_strlit("ESP_ERR_ESP_NETIF_NO_MEM");
        reveal_strlit("[ESP_ERR_ESP_NETIF_NO_MEM]: No further error description");
        assert(spec_error_info(code).unwrap().subrange(0, spec_error_name(code).unwrap().len() + 4int)
            =~= seq!['['] + spec_error_name(code).unwrap() + seq![']', ':', ' ']);
        assert(ESP_IDF_ERROR_CODES@[134] == code);
        let name = spec_error_name(code).unwrap();
        assert(name.subrange(0, 4) =~= seq!['E', 'S', 'P', '_']);
        assert(name.subrange(0, 8) =~= seq!['E', 'S', 'P', '_', 'E', 'R', 'R', '_']);
        assert forall|j: int| 0 <= j < name.len() implies is_name_char(#[trigger] name[j]) by {
            if j == 0 {
            } else if j == 1 {
            } else if j == 2 {
            } else if j == 3 {
            } else if j == 4 {
            } else if j == 5 {
            } else if j == 6 {
            } else if j == 7 {
            } else if j == 8 {
            } else if j == 9 {
            } else if j == 10 {
            } else if j == 11 {
            } else if j == 12 {
            } else if j == 13 {
            } else if j == 14 {
            } else if j == 15 {
            } else if j == 16 {
            } else if j == 17 {
            } else if j == 18 {
            } else if j == 19 {
            } else if j == 20 {
            } else if j == 21 {
            } else if j == 22 {
            } else if j == 23 {
            }
        }
    } else if code == 0x5007 {
        reveal_strlit("ESP_ERR_ESP_NETIF_DHCP_NOT_STOPPED");
        reveal_strlit("[ESP_ERR_ESP_NETIF_DHCP_NOT_STOPPED]: No further error description");
        assert(spec_error_info(code).unwrap().subrange(0, spec_error_name(code).unwrap().len() + 4int)
            =~= seq!['['] + spec_error_name(code).unwrap() + seq![']', ':', ' ']);
        assert(ESP_IDF_ERROR_CODES@[135] == code);
        let name = spec_error_name(code).unwrap();
        assert(name.subrange(0, 4) =~= seq!['E', 'S', 'P', '_']);
        assert(name.subrange(0, 8) =~= seq!['E', 'S', 'P', '_', 'E', 'R', 'R', '_']);
        assert forall|j: int| 0 <= j < name.len() implies is_name_char(#[trigger] name[j]) by {
            if j == 0 {
            } else if j == 1 {
            } else if j == 2 {
            } else if j == 3 {
            } else if j == 4 {
            } else if j == 5 {
            } else if j == 6 {
            } else if j == 7 {
            } else if j == 8 {
            } else if j == 9 {
            } else if j == 10 {
            } else if j == 11 {
            } else if j == 12 {
            } else if j == 13 {
            } else if j == 14 {
            } else if j == 15 {
            } else if j == 16 {
            } else if j == 17 {
            } else if j == 18 {
            } else if j == 19 {
            } else if j == 20 {
            } else if j == 21 {
            } else if j == 22 {
            } else if j == 23 {
            } else if j == 24 {
            } else if j == 25 {
            } else if j == 26 {
            } else if j == 27 {
            } else if j == 28 {
            } else if j == 29 {
            } else if j == 30 {
            } else if j == 31 {
            } else if j == 32 {
            } else if j == 33 {
            }
        }
    } else if code == 0x5008 {
        reveal_strlit("ESP_ERR_ESP_NETIF_DRIVER_ATTACH_FAILED");
        reveal_strlit("[ESP_ERR_ESP_NETIF_DRIVER_ATTACH_FAILED]: No further error description");
        assert(spec_error_info(code).unwrap().subrange(0, spec_error_name(code).unwrap().len() + 4int)
            =~= seq!['['] + spec_error_name(code).unwrap() + seq![']', ':', ' ']);
        assert(ESP_IDF_ERROR_CODES@[136] == code);
        let name = spec_error_name(code).unwrap();
        assert(name.subrange(0, 4) =~= seq!['E', 'S', 'P', '_']);
        assert(name.subrange(0, 8) =~= seq!['E', 'S', 'P', '_', 'E', 'R', 'R', '_']);
        assert forall|j: int| 0 <= j < name.len() implies is_name_char(#[trigger] name[j]) by {
            if j == 0 {
            } else if j == 1 {
            } else if j == 2 {
            } else if j == 3 {
            } else if j == 4 {
            } else if j == 5 {
            } else if j == 6 {
            } else if j == 7 {
            } else if j == 8 {
            } else if j == 9 {
            } else if j == 10 {
            } else if j == 11 {
            } else if j == 12 {
            } else if j == 13 {
            } else if j == 14 {
            } else if j == 15 {
            } else if j == 16 {
            } else if j == 17 {
            } else if j == 18 {
            } else if j == 19 {
            } else if j == 20 {
            } else if j == 21 {
            } else if j == 22 {
            } else if j == 23 {
            } else if j == 24 {
            } else if j == 25 {
            } else if j == 26 {
            } else if j == 27 {
            } else if j == 28 {
            } else if j == 29 {
            } else if j == 30 {
            } else if j == 31 {
            } else if j == 32 {
            } else if j == 33 {
            } else if j == 34 {
            } else if j == 35 {
            } else if j == 36 {
            } else if j == 37 {
            }
        }
    } else if code == 0x5009 {
        reveal_strlit("ESP_ERR_ESP_NETIF_INIT_FAILED");
        reveal_strlit("[ESP_ERR_ESP_NETIF_INIT_FAILED]: No further error description");
        assert(spec_error_info(code).unwrap().subrange(0, spec_error_name(code).unwrap().len() + 4int)
            =~= seq!['['] + spec_error_name(code).unwrap() + seq![']', ':', ' ']);
        assert(ESP_IDF_ERROR_CODES@[137] == code);
        let name = spec_error_name(code).unwrap();
        assert(name.subrange(0, 4) =~= seq!['E', 'S', 'P', '_']);
        assert(name.subrange(0, 8) =~= seq!['E', 'S', 'P', '_', 'E', 'R', 'R', '_']);
        assert forall|j: int| 0 <= j < name.len() implies is_name_char(#[trigger] name[j]) by {
            if j == 0 {
            } else if j == 1 {
            } else if j == 2 {
            } else if j == 3 {
            } else if j == 4 {
            } else if j == 5 {
            } else if j == 6 {
            } else if j == 7 {
            } else if j == 8 {
            } else if j == 9 {
            } else if j == 10 {
            } else if j == 11 {
            } else if j == 12 {
            } else if j == 13 {
            } else if j == 14 {
            } else if j == 15 {
            } else if j == 16 {
            } else if j == 17 {
            } else if j == 18 {
            } else if j == 19 {
            } else if j == 20 {
            } else if j == 21 {
            } else if j == 22 {
            } else if j == 23 {
            } else if j == 24 {
            } else if j == 25 {
            } else if j == 26 {
            } else if j == 27 {
            } else if j == 28 {
            }
        }
    } else if code == 0x500a {
        reveal_strlit("ESP_ERR_ESP_NETIF_DNS_NOT_CONFIGURED");
        reveal_strlit("[ESP_ERR_ESP_NETIF_DNS_NOT_CONFIGURED]: No further error description");
        assert(spec_error_info(code).unwrap().subrange(0, spec_error_name(code).unwrap().len() + 4int)
            =~= seq!['['] + spec_error_name(code).unwrap() + seq![']', ':', ' ']);
        assert(ESP_IDF_ERROR_CODES@[138] == code);
        let name = spec_error_name(code).unwrap();
        assert(name.subrange(0, 4) =~= seq!['E', 'S', 'P', '_']);
        assert(name.subrange(0, 8) =~= seq!['E', 'S', 'P', '_', 'E', 'R', 'R', '_']);
        assert forall|j: int| 0 <= j < name.len() implies is_name_char(#[trigger] name[j]) by {
            if j == 0 {
            } else if j == 1 {
            } else if j == 2 {
            } else if j == 3 {
            } else if j == 4 {
            } else if j == 5 {
            } else if j == 6 {
            } else if j == 7 {
            } else if j == 8 {
            } else if j == 9 {
            } else if j == 10 {
            } else if j == 11 {
            } else if j == 12 {
            } else if j == 13 {
            } else if j == 14 {
            } else if j == 15 {
            } else if j == 16 {
            } else if j == 17 {
            } else if j == 18 {
            } else if j == 19 {
            } else if j == 20 {
            } else if j == 21 {
            } else if j == 22 {
            } else if j == 23 {
            } else if j == 24 {
            } else if j == 25 {
            } else if j == 26 {
            } else if j == 27 {
            } else if j == 28 {
            } else if j == 29 {
            } else if j == 30 {
            } else if j == 31 {
            } else if j == 32 {
            } else if j == 33 {
            } else if j == 34 {
            } else if j == 35 {
            }
        }
    } else if code == 0x500b {
        reveal_strlit("ESP_ERR_ESP_NETIF_MLD6_FAILED");
        reveal_strlit("[ESP_ERR_ESP_NETIF_MLD6_FAILED]: No further error description");
        assert(spec_error_info(code).unwrap().subrange(0, spec_error_name(code).unwrap().len() + 4int)
            =~= seq!['['] + spec_error_name(code).unwrap() + seq![']', ':', ' ']);
        assert(ESP_IDF_ERROR_CODES@[139] == code);
        let name = spec_error_name(code).unwrap();
        assert(name.subrange(0, 4) =~= seq!['E', 'S', 'P', '_']);
        assert(name.subrange(0, 8) =~= seq!['E', 'S', 'P', '_', 'E', 'R', 'R', '_']);
        assert forall|j: int| 0 <= j < name.len() implies is_name_char(#[trigger] name[j]) by {
            if j == 0 {
            } else if j == 1 {
            } else if j == 2 {
            } else if j == 3 {
            } else if j == 4 {
            } else if j == 5 {
            } else if j == 6 {
            } else if j == 7 {
            } else if j == 8 {
            } else if j == 9 {
            } else if j == 10 {
            } else if j == 11 {
            } else if j == 12 {
            } else if j == 13 {
            } else if j == 14 {
            } else if j == 15 {
            } else if j == 16 {
            } else if j == 17 {
            } else if j == 18 {
            } else if j == 19 {
            } else if j == 20 {
            } else if j == 21 {
            } else if j == 22 {
            } else if j == 23 {
            } else if j == 24 {
            } else if j == 25 {
            } else if j == 26 {
            } else if j == 27 {
            } else if j == 28 {
            }
        }
    } else if code == 0x500c {
        reveal_strlit("ESP_ERR_ESP_NETIF_IP6_ADDR_FAILED");
        reveal_strlit("[ESP_ERR_ESP_NETIF_IP6_ADDR_FAILED]: No further error description");
        assert(spec_error_info(code).unwrap().subrange(0, spec_error_name(code).unwrap().len() + 4int)
            =~= seq!['['] + spec_error_name(code).unwrap() + seq![']', ':', ' ']);
        assert(ESP_IDF_ERROR_CODES@[140] == code);
        let name = spec_error_name(code).unwrap();
        assert(name.subrange(0, 4) =~= seq!['E', 'S', 'P', '_']);
        assert(name.subrange(0, 8) =~= seq!['E', 'S', 'P', '_', 'E', 'R', 'R', '_']);
        assert forall|j: int| 0 <= j < name.len() implies is_name_char(#[trigger] name[j]) by {
            if j == 0 {
            } else if j == 1 {
            } else if j == 2 {
            } else if j == 3 {
            } else if j == 4 {
            } else if j == 5 {
            } else if j == 6 {
            } else if j == 7 {
            } else if j == 8 {
            } else if j == 9 {
            } else if j == 10 {
            } else if j == 11 {
            } else if j == 12 {
            } else if j == 13 {
            } else if j == 14 {
            } else if j == 15 {
            } else if j == 16 {
            } else if j == 17 {
            } else if j == 18 {
            } else if j == 19 {
            } else if j == 20 {
            } else if j == 21 {
            } else if j == 22 {
            } else if j == 23 {
            } else if j == 24 {
            } else if j == 25 {
            } else if j == 26 {
            } else if j == 27 {
            } else if j == 28 {
            } else if j == 29 {
            } else if j == 30 {
            } else if j == 31 {
            } else if j == 32 {
            }
        }
    } else if code == 0x500d {
        reveal_strlit("ESP_ERR_ESP_NETIF_DHCPS_START_FAILED");
        reveal_strlit("[ESP_ERR_ESP_NETIF_DHCPS_START_FAILED]: No further error description");
        assert(spec_error_info(code).unwrap().subrange(0, spec_error_name(code).unwrap().len() + 4int)
            =~= seq!['['] + spec_error_name(code).unwrap() + seq![']', ':', ' ']);
        assert(ESP_IDF_ERROR_CODES@[141] == code);
        let name = spec_error_name(code).unwrap();
        assert(name.subrange(0, 4) =~= seq!['E', 'S', 'P', '_']);
        assert(name.subrange(0, 8) =~= seq!['E', 'S', 'P', '_', 'E', 'R', 'R', '_']);
        assert forall|j: int| 0 <= j < name.len() implies is_name_char(#[trigger] name[j]) by {
            if j == 0 {
            } else if j == 1 {
            } else if j == 2 {
            } else if j == 3 {
            } else if j == 4 {
            } else if j == 5 {
            } else if j == 6 {
            } else if j == 7 {
            } else if j == 8 {
            } else if j == 9 {
            } else if j == 10 {
            } else if j == 11 {
            } else if j == 12 {
            } else if j == 13 {
            } else if j == 14 {
            } else if j == 15 {
            } else if j == 16 {
            } else if j == 17 {
            } else if j == 18 {
            } else if j == 19 {
            } else if j == 20 {
            } else if j == 21 {
            } else if j == 22 {
            } else if j == 23 {
            } else if j == 24 {
            } else if j == 25 {
            } else if j == 26 {
            } else if j == 27 {
            } else if j == 28 {
            } else if j == 29 {
            } else if j == 30 {
            } else if j == 31 {
            } else if j == 32 {
            } else if j == 33 {
            } else if j == 34 {
            } else if j == 35 {
            }
        }
    } else if code == 0x500e {
        reveal_strlit("ESP_ERR_ESP_NETIF_TX_FAILED");
        reveal_strlit("[ESP_ERR_ESP_NETIF_TX_FAILED]: No further error description");
        assert(spec_error_info(code).unwrap().subrange(0, spec_error_name(code).unwrap().len() + 4int)
            =~= seq!['['] + spec_error_name(code).unwrap() + seq![']', ':', ' ']);
        assert(ESP_IDF_ERROR_CODES@[142] == code);
        let name = spec_error_name(code).unwrap();
        assert(name.subrange(0, 4) =~= seq!['E', 'S', 'P', '_']);
        assert(name.subrange(0, 8) =~= seq!['E', 'S', 'P', '_', 'E', 'R', 'R', '_']);
        assert forall|j: int| 0 <= j < name.len() implies is_name_char(#[trigger] name[j]) by {
            if j == 0 {
            } else if j == 1 {
            } else if j == 2 {
            } else if j == 3 {
            } else if j == 4 {
            } else if j == 5 {
            } else if j == 6 {
            } else if j == 7 {
            } else if j == 8 {
            } else if j == 9 {
            } else if j == 10 {
            } else if j == 11 {
            } else if j == 12 {
            } else if j == 13 {
            } else if j == 14 {
            } else if j == 15 {
            } else if j == 16 {
            } else if j == 17 {
            } else if j == 18 {
            } else if j == 19 {
            } else if j == 20 {
            } else if j == 21 {
            } else if j == 22 {
            } else if j == 23 {
            } else if j == 24 {
            } else if j == 25 {
            } else if j == 26 {
            }
        }
    } else if code == 0x6001 {
        reveal_strlit("ESP_ERR_FLASH_OP_FAIL");
        reveal_strlit("[ESP_ERR_FLASH_OP_FAIL]: No further error description");
        assert(spec_error_info(code).unwrap().subrange(0, spec_error_name(code).unwrap().len() + 4int)
            =~= seq!['['] + spec_error_name(code).unwrap() + seq![']', ':', ' ']);
        assert(ESP_IDF_ERROR_CODES@[143] == code);
        let name = spec_error_name(code).unwrap();
        assert(name.subrange(0, 4) =~= seq!['E', 'S', 'P', '_']);
        assert(name.subrange(0, 8) =~= seq!['E', 'S', 'P', '_', 'E', 'R', 'R', '_']);
        assert forall|j: int| 0 <= j < name.len() implies is_name_char(#[trigger] name[j]) by {
            if j == 0 {
            } else if j == 1 {
            } else if j == 2 {
            } else if j == 3 {
            } else if j == 4 {
            } else if j == 5 {
            } else if j == 6 {
            } else if j == 7 {
            } else if j == 8 {
            } else if j == 9 {
            } else if j == 10 {
            } else if j == 11 {
            } else if j == 12 {
            } else if j == 13 {
            } else if j == 14 {
            } else if j == 15 {
            } else if j == 16 {
            } else if j == 17 {
            } else if j == 18 {
            } else if j == 19 {
            } else if j == 20 {
            }
        }
    }
}

/// Entries 128 to 143 of `ESP_IDF_ERROR_CODES` are known codes, each below the next.
proof fn lemma_table_indices_8(i: int)
    requires
        128 <= i < 144,
    ensures
        is_error_code(ESP_IDF_ERROR_CODES@[i]),
        ESP_IDF_ERROR_CODES@[i] < ESP_IDF_ERROR_CODES@[i + 1],
{
    if i == 128 {
        assert(ESP_IDF_ERROR_CODES@[i] == 0x401a);
        assert(ESP_IDF_ERROR_CODES@[i + 1] == 0x5001);
    } else if i == 129 {
        assert(ESP_IDF_ERROR_CODES@[i] == 0x5001);
        assert(ESP_IDF_ERROR_CODES@[i + 1] == 0x5002);
    } else if i == 130 {
        assert(ESP_IDF_ERROR_CODES@[i] == 0x5002);
        assert(ESP_IDF_ERROR_CODES@[i + 1] == 0x5003);
    } else if i == 131 {
        assert(ESP_IDF_ERROR_CODES@[i] == 0x5003);
        assert(ESP_IDF_ERROR_CODES@[i + 1] == 0x5004);
    } else if i == 132 {
        assert(ESP_IDF_ERROR_CODES@[i] == 0x5004);
        assert(ESP_IDF_ERROR_CODES@[i + 1] == 0x5005);
    } else if i == 133 {
        assert(ESP_IDF_ERROR_CODES@[i] == 0x5005);
        assert(ESP_IDF_ERROR_CODES@[i + 1] == 0x5006);
    } else if i == 134 {
        assert(ESP_IDF_ERROR_CODES@[i] == 0x5006);
        assert(ESP_IDF_ERROR_CODES@[i + 1] == 0x5007);
    } else if i == 135 {
        assert(ESP_IDF_ERROR_CODES@[i] == 0x5007);
        assert(ESP_IDF_ERROR_CODES@[i + 1] == 0x5008);
    } else if i == 136 {
        assert(ESP_IDF_ERROR_CODES@[i] == 0x5008);
        assert(ESP_IDF_ERROR_CODES@[i + 1] == 0x5009);
    } else if i == 137 {
        assert(ESP_IDF_ERROR_CODES@[i] == 0x5009);
        assert(ESP_IDF_ERROR_CODES@[i + 1] == 0x500a);
    } else if i == 138 {
        assert(ESP_IDF_ERROR_CODES@[i] == 0x500a);
        assert(ESP_IDF_ERROR_CODES@[i + 1] == 0x500b);
    } else if i == 139 {
        assert(ESP_IDF_ERROR_CODES@[i] == 0x500b);
        assert(ESP_IDF_ERROR_CODES@[i + 1] == 0x500c);
    } else if i == 140 {
        assert(ESP_IDF_ERROR_CODES@[i] == 0x500c);
        assert(ESP_IDF_ERROR_CODES@[i + 1] == 0x500d);
    } else if i == 141 {
        assert(ESP_IDF_ERROR_CODES@[i] == 0x500d);
        assert(ESP_IDF_ERROR_CODES@[i + 1] == 0x500e);
    } else if i == 142 {
        assert(ESP_IDF_ERROR_CODES@[i] == 0x500e);
        assert(ESP_IDF_ERROR_CODES@[i + 1] == 0x6001);
    } else if i == 143 {
        assert(ESP_IDF_ERROR_CODES@[i] == 0x6001);
        assert(ESP_IDF_ERROR_CODES@[i + 1] == 0x6002);
    }
}

/// The table facts for every code from `0x6002` to `0x700b`.
proof fn lemma_table_codes_9(code: i32)
    requires
        0x6002 <= code <= 0x700b,
    ensures
        table_facts(code),
{
    if code == 0x6002 {
        reveal_strlit("ESP_ERR_FLASH_OP_TIMEOUT");
        reveal_strlit("[ESP_ERR_FLASH_OP_TIMEOUT]: No further error description");
        assert(spec_error_info(code).unwrap().subrange(0, spec_error_name(code).unwrap().len() + 4int)
            =~= seq!['['] + spec_error_name(code).unwrap() + seq![']', ':', ' ']);
        assert(ESP_IDF_ERROR_CODES@[144] == code);
        let name = spec_error_name(code).unwrap();
        assert(name.subrange(0, 4) =~= seq!['E', 'S', 'P', '_']);
        assert(name.subrange(0, 8) =~= seq!['E', 'S', 'P', '_', 'E', 'R', 'R', '_']);
        assert forall|j: int| 0 <= j < name.len() implies is_name_char(#[trigger] name[j]) by {
            if j == 0 {
            } else if j == 1 {
            } else if j == 2 {
            } else if j == 3 {
            } else if j == 4 {
            } else if j == 5 {
            } else if j == 6 {
            } else if j == 7 {
            } else if j == 8 {
            } else if j == 9 {
            } else if j == 10 {
            } else if j == 11 {
            } else if j == 12 {
            } else if j == 13 {
            } else if j == 14 {
            } else if j == 15 {
            } else if j == 16 {
            } else if j == 17 {
            } else if j == 18 {
            } else if j == 19 {
            } else if j == 20 {
            } else if j == 21 {
            } else if j == 22 {
            } else if j == 23 {
            }
        }
    } else if code == 0x6003 {
        reveal_strlit("ESP_ERR_FLASH_NOT_INITIALISED");
        reveal_strlit("[ESP_ERR_FLASH_NOT_INITIALISED]: No further error description");
        assert(spec_error_info(code).unwrap().subrange(0, spec_error_name(code).unwrap().len() + 4int)
            =~= seq!['['] + spec_error_name(code).unwrap() + seq![']', ':', ' ']);
        assert(ESP_IDF_ERROR_CODES@[145] == code);
        let name = spec_error_name(code).unwrap();
        assert(name.subrange(0, 4) =~= seq!['E', 'S', 'P', '_']);
        assert(name.subrange(0, 8) =~= seq!['E', 'S', 'P', '_', 'E', 'R', 'R', '_']);
        assert forall|j: int| 0 <= j < name.len() implies is_name_char(#[trigger] name[j]) by {
            if j == 0 {
            } else if j == 1 {
            } else if j == 2 {
            } else if j == 3 {
            } else if j == 4 {
            } else if j == 5 {
            } else if j == 6 {
            } else if j == 7 {
            } else if j == 8 {
            } else if j == 9 {
            } else if j == 10 {
            } else if j == 11 {
            } else if j == 12 {
            } else if j == 13 {
            } else if j == 14 {
            } else if j == 15 {
            } else if j == 16 {
            } else if j == 17 {
            } else if j == 18 {
            } else if j == 19 {
            } else if j == 20 {
            } else if j == 21 {
            } else if j == 22 {
            } else if j == 23 {
            } else if j == 24 {
            } else if j == 25 {
            } else if j == 26 {
            } else if j == 27 {
            } else if j == 28 {
            }
        }
    } else if code == 0x6004 {
        reveal_strlit("ESP_ERR_FLASH_UNSUPPORTED_HOST");
        reveal_strlit("[ESP_ERR_FLASH_UNSUPPORTED_HOST]: No further error description");
        assert(spec_error_info(code).unwrap().subrange(0, spec_error_name(code).unwrap().len() + 4int)
            =~= seq!['['] + spec_error_name(code).unwrap() + seq![']', ':', ' ']);
        assert(ESP_IDF_ERROR_CODES@[146] == code);
        let name = spec_error_name(code).unwrap();
        assert(name.subrange(0, 4) =~= seq!['E', 'S', 'P', '_']);
        assert(name.subrange(0, 8) =~= seq!['E', 'S', 'P', '_', 'E', 'R', 'R', '_']);
        assert forall|j: int| 0 <= j < name.len() implies is_name_char(#[trigger] name[j]) by {
            if j == 0 {
            } else if j == 1 {
            } else if j == 2 {
            } else if j == 3 {
            } else if j == 4 {
            } else if j == 5 {
            } else if j == 6 {
            } else if j == 7 {
            } else if j == 8 {
            } else if j == 9 {
            } else if j == 10 {
            } else if j == 11 {
            } else if j == 12 {
            } else if j == 13 {
            } else if j == 14 {
            } else if j == 15 {
            } else if j == 16 {
            } else if j == 17 {
            } else if j == 18 {
            } else if j == 19 {
            } else if j == 20 {
            } else if j == 21 {
            } else if j == 22 {
            } else if j == 23 {
            } else if j == 24 {
            } else if j == 25 {
            } else if j == 26 {
            } else if j == 27 {
            } else if j == 28 {
            } else if j == 29 {
            }
        }
    } else if code == 0x6005 {
        reveal_strlit("ESP_ERR_FLASH_UNSUPPORTED_CHIP");
        reveal_strlit("[ESP_ERR_FLASH_UNSUPPORTED_CHIP]: No further error description");
        assert(spec_error_info(code).unwrap().subrange(0, spec_error_name(code).unwrap().len() + 4int)
            =~= seq!['['] + spec_error_name(code).unwrap() + seq![']', ':', ' ']);
        assert(ESP_IDF_ERROR_CODES@[147] == code);
        let name = spec_error_name(code).unwrap();
        assert(name.subrange(0, 4) =~= seq!['E', 'S', 'P', '_']);
        assert(name.subrange(0, 8) =~= seq!['E', 'S', 'P', '_', 'E', 'R', 'R', '_']);
        assert forall|j: int| 0 <= j < name.len() implies is_name_char(#[trigger] name[j]) by {
            if j == 0 {
            } else if j == 1 {
            } else if j == 2 {
            } else if j == 3 {
            } else if j == 4 {
            } else if j == 5 {
            } else if j == 6 {
            } else if j == 7 {
            } else if j == 8 {
            } else if j == 9 {
            } else if j == 10 {
            } else if j == 11 {
            } else if j == 12 {
            } else if j == 13 {
            } else if j == 14 {
            } else if j == 15 {
            } else if j == 16 {
            } else if j == 17 {
            } else if j == 18 {
            } else if j == 19 {
            } else if j == 20 {
            } else if j == 21 {
            } else if j == 22 {
            } else if j == 23 {
            } else if j == 24 {
            } else if j == 25 {
            } else if j == 26 {
            } else if j == 27 {
            } else if j == 28 {
            } else if j == 29 {
            }
        }
    } else if code == 0x6006 {
        reveal_strlit("ESP_ERR_FLASH_PROTECTED");
        reveal_strlit("[ESP_ERR_FLASH_PROTECTED]: No further error description");
        assert(spec_error_info(code).unwrap().subrange(0, spec_error_name(code).unwrap().len() + 4int)
            =~= seq!['['] + spec_error_name(code).unwrap() + seq![']', ':', ' ']);
        assert(ESP_IDF_ERROR_CODES@[148] == code);
        let name = spec_error_name(code).unwrap();
        assert(name.subrange(0, 4) =~= seq!['E', 'S', 'P', '_']);
        assert(name.subrange(0, 8) =~= seq!['E', 'S', 'P', '_', 'E', 'R', 'R', '_']);
        assert forall|j: int| 0 <= j < name.len() implies is_name_char(#[trigger] name[j]) by {
            if j == 0 {
            } else if j == 1 {
            } else if j == 2 {
            } else if j == 3 {
            } else if j == 4 {
            } else if j == 5 {
            } else if j == 6 {
            } else if j == 7 {
            } else if j == 8 {
            } else if j == 9 {
            } else if j == 10 {
            } else if j == 11 {
            } else if j == 12 {
            } else if j == 13 {
            } else if j == 14 {
            } else if j == 15 {
            } else if j == 16 {
            } else if j == 17 {
            } else if j == 18 {
            } else if j == 19 {
            } else if j == 20 {
            } else if j == 21 {
            } else if j == 22 {
            }
        }
    } else if code == 0x7001 {
        reveal_strlit("ESP_ERR_HTTP_MAX_REDIRECT");
        reveal_strlit("[ESP_ERR_HTTP_MAX_REDIRECT]: The error exceeds the number of HTTP redirects");
        assert(spec_error_info(code).unwrap().subrange(0, spec_error_name(code).unwrap().len() + 4int)
            =~= seq!['['] + spec_error_name(code).unwrap() + seq![']', ':', ' ']);
        assert(ESP_IDF_ERROR_CODES@[149] == code);
        let name = spec_error_name(code).unwrap();
        assert(name.subrange(0, 4) =~= seq!['E', 'S', 'P', '_']);
        assert(name.subrange(0, 8) =~= seq!['E', 'S', 'P', '_', 'E', 'R', 'R', '_']);
        assert forall|j: int| 0 <= j < name.len() implies is_name_char(#[trigger] name[j]) by {
            if j == 0 {
            } else if j == 1 {
            } else if j == 2 {
            } else if j == 3 {
            } else if j == 4 {
            } else if j == 5 {
            } else if j == 6 {
            } else if j == 7 {
            } else if j == 8 {
            } else if j == 9 {
            } else if j == 10 {
            } else if j == 11 {
            } else if j == 12 {
            } else if j == 13 {
            } else if j == 14 {
            } else if j == 15 {
            } else if j == 16 {
            } else if j == 17 {
            } else if j == 18 {
            } else if j == 19 {
            } else if j == 20 {
            } else if j == 21 {
            } else if j == 22 {
            } else if j == 23 {
            } else if j == 24 {
            }
        }
    } else if code == 0x7002 {
        reveal_strlit("ESP_ERR_HTTP_CONNECT");
        reveal_strlit("[ESP_ERR_HTTP_CONNECT]: Error open the HTTP connection");
        assert(spec_error_info(code).unwrap().subrange(0, spec_error_name(code).unwrap().len() + 4int)
            =~= seq!['['] + spec_error_name(code).unwrap() + seq![']', ':', ' ']);
        assert(ESP_IDF_ERROR_CODES@[150] == code);
        let name = spec_error_name(code).unwrap();
        assert(name.subrange(0, 4) =~= seq!['E', 'S', 'P', '_']);
        assert(name.subrange(0, 8) =~= seq!['E', 'S', 'P', '_', 'E', 'R', 'R', '_']);
        assert forall|j: int| 0 <= j < name.len() implies is_name_char(#[trigger] name[j]) by {
            if j == 0 {
            } else if j == 1 {
            } else if j == 2 {
            } else if j == 3 {
            } else if j == 4 {
            } else if j == 5 {
            } else if j == 6 {
            } else if j == 7 {
            } else if j == 8 {
            } else if j == 9 {
            } else if j == 10 {
            } else if j == 11 {
            } else if j == 12 {
            } else if j == 13 {
            } else if j == 14 {
            } else if j == 15 {
            } else if j == 16 {
            } else if j == 17 {
            } else if j == 18 {
            } else if j == 19 {
            }
        }
    } else if code == 0x7003 {
        reveal_strlit("ESP_ERR_HTTP_WRITE_DATA");
        reveal_strlit("[ESP_ERR_HTTP_WRITE_DATA]: Error write HTTP data");
        assert(spec_error_info(code).unwrap().subrange(0, spec_error_name(code).unwrap().len() + 4int)
            =~= seq!['['] + spec_error_name(code).unwrap() + seq![']', ':', ' ']);
        assert(ESP_IDF_ERROR_CODES@[151] == code);
        let name = spec_error_name(code).unwrap();
        assert(name.subrange(0, 4) =~= seq!['E', 'S', 'P', '_']);
        assert(name.subrange(0, 8) =~= seq!['E', 'S', 'P', '_', 'E', 'R', 'R', '_']);
        assert forall|j: int| 0 <= j < name.len() implies is_name_char(#[trigger] name[j]) by {
            if j == 0 {
            } else if j == 1 {
            } else if j == 2 {
            } else if j == 3 {
            } else if j == 4 {
            } else if j == 5 {
            } else if j == 6 {
            } else if j == 7 {
            } else if j == 8 {
            } else if j == 9 {
            } else if j == 10 {
            } else if j == 11 {
            } else if j == 12 {
            } else if j == 13 {
            } else if j == 14 {
            } else if j == 15 {
            } else if j == 16 {
            } else if j == 17 {
            } else if j == 18 {
            } else if j == 19 {
            } else if j == 20 {
            } else if j == 21 {
            } else if j == 22 {
            }
        }
    } else if code == 0x7004 {
        reveal_strlit("ESP_ERR_HTTP_FETCH_HEADER");
        reveal_strlit("[ESP_ERR_HTTP_FETCH_HEADER]: Error read HTTP header from server");
        assert(spec_error_info(code).unwrap().subrange(0, spec_error_name(code).unwrap().len() + 4int)
            =~= seq!['['] + spec_error_name(code).unwrap() + seq![']', ':', ' ']);
        assert(ESP_IDF_ERROR_CODES@[152] == code);
        let name = spec_error_name(code).unwrap();
        assert(name.subrange(0, 4) =~= seq!['E', 'S', 'P', '_']);
        assert(name.subrange(0, 8) =~= seq!['E', 'S', 'P', '_', 'E', 'R', 'R', '_']);
        assert forall|j: int| 0 <= j < name.len() implies is_name_char(#[trigger] name[j]) by {
            if j == 0 {
            } else if j == 1 {
            } else if j == 2 {
            } else if j == 3 {
            } else if j == 4 {
            } else if j == 5 {
            } else if j == 6 {
            } else if j == 7 {
            } else if j == 8 {
            } else if j == 9 {
            } else if j == 10 {
            } else if j == 11 {
            } else if j == 12 {
            } else if j == 13 {
            } else if j == 14 {
            } else if j == 15 {
            } else if j == 16 {
            } else if j == 17 {
            } else if j == 18 {
            } else if j == 19 {
            } else if j == 20 {
            } else if j == 21 {
            } else if j == 22 {
            } else if j == 23 {
            } else if j == 24 {
            }
        }
    } else if code == 0x7005 {
        reveal_strlit("ESP_ERR_HTTP_INVALID_TRANSPORT");
        reveal_strlit("[ESP_ERR_HTTP_INVALID_TRANSPORT]: There are no transport support for the input scheme");
        assert(spec_error_info(code).unwrap().subrange(0, spec_error_name(code).unwrap().len() + 4int)
            =~= seq!['['] + spec_error_name(code).unwrap() + seq![']', ':', ' ']);
        assert(ESP_IDF_ERROR_CODES@[153] == code);
        let name = spec_error_name(code).unwrap();
        assert(name.subrange(0, 4) =~= seq!['E', 'S', 'P', '_']);
        assert(name.subrange(0, 8) =~= seq!['E', 'S', 'P', '_', 'E', 'R', 'R', '_']);
        assert forall|j: int| 0 <= j < name.len() implies is_name_char(#[trigger] name[j]) by {
            if j == 0 {
            } else if j == 1 {
            } else if j == 2 {
            } else if j == 3 {
            } else if j == 4 {
            } else if j == 5 {
            } else if j == 6 {
            } else if j == 7 {
            } else if j == 8 {
            } else if j == 9 {
            } else if j == 10 {
            } else if j == 11 {
            } else if j == 12 {
            } else if j == 13 {
            } else if j == 14 {
            } else if j == 15 {
            } else if j == 16 {
            } else if j == 17 {
            } else if j == 18 {
            } else if j == 19 {
            } else if j == 20 {
            } else if j == 21 {
            } else if j == 22 {
            } else if j == 23 {
            } else if j == 24 {
            } else if j == 25 {
            } else if j == 26 {
            } else if j == 27 {
            } else if j == 28 {
            } else if j == 29 {
            }
        }
    } else if code == 0x7006 {
        reveal_strlit("ESP_ERR_HTTP_CONNECTING");
        reveal_strlit("[ESP_ERR_HTTP_CONNECTING]: HTTP connection hasn't been established yet");
        assert(spec_error_info(code).unwrap().subrange(0, spec_error_name(code).unwrap().len() + 4int)
            =~= seq!['['] + spec_error_name(code).unwrap() + seq![']', ':', ' ']);
        assert(ESP_IDF_ERROR_CODES@[154] == code);
        let name = spec_error_name(code).unwrap();
        assert(name.subrange(0, 4) =~= seq!['E', 'S', 'P', '_']);
        assert(name.subrange(0, 8) =~= seq!['E', 'S', 'P', '_', 'E', 'R', 'R', '_']);
        assert forall|j: int| 0 <= j < name.len() implies is_name_char(#[trigger] name[j]) by {
            if j == 0 {
            } else if j == 1 {
            } else if j == 2 {
            } else if j == 3 {
            } else if j == 4 {
            } else if j == 5 {
            } else if j == 6 {
            } else if j == 7 {
            } else if j == 8 {
            } else if j == 9 {
            } else if j == 10 {
            } else if j == 11 {
            } else if j == 12 {
            } else if j == 13 {
            } else if j == 14 {
            } else if j == 15 {
            } else if j == 16 {
            } else if j == 17 {
            } else if j == 18 {
            } else if j == 19 {
            } else if j == 20 {
            } else if j == 21 {
            } else if j == 22 {
            }
        }
    } else if code == 0x7007 {
        reveal_strlit("ESP_ERR_HTTP_EAGAIN");
        reveal_strlit("[ESP_ERR_HTTP_EAGAIN]: Mapping of errno EAGAIN to esp_err_t");
        assert(spec_error_info(code).unwrap().subrange(0, spec_error_name(code).unwrap().len() + 4int)
            =~= seq!['['] + spec_error_name(code).unwrap() + seq![']', ':', ' ']);
        assert(ESP_IDF_ERROR_CODES@[155] == code);
        let name = spec_error_name(code).unwrap();
        assert(name.subrange(0, 4) =~= seq!['E', 'S', 'P', '_']);
        assert(name.subrange(0, 8) =~= seq!['E', 'S', 'P', '_', 'E', 'R', 'R', '_']);
        assert forall|j: int| 0 <= j < name.len() implies is_name_char(#[trigger] name[j]) by {
            if j == 0 {
            } else if j == 1 {
            } else if j == 2 {
            } else if j == 3 {
            } else if j == 4 {
            } else if j == 5 {
            } else if j == 6 {
            } else if j == 7 {
            } else if j == 8 {
            } else if j == 9 {
            } else if j == 10 {
            } else if j == 11 {
            } else if j == 12 {
            } else if j == 13 {
            } else if j == 14 {
            } else if j == 15 {
            } else if j == 16 {
            } else if j == 17 {
            } else if j == 18 {
            }
        }
    } else if code == 0x7008 {
        reveal_strlit("ESP_ERR_HTTP_CONNECTION_CLOSED");
        reveal_strlit("[ESP_ERR_HTTP_CONNECTION_CLOSED]: Read FIN from peer and the connection closed");
        assert(spec_error_info(code).unwrap().subrange(0, spec_error_name(code).unwrap().len() + 4int)
            =~= seq!['['] + spec_error_name(code).unwrap() + seq![']', ':', ' ']);
        assert(ESP_IDF_ERROR_CODES@[156] == code);
        let name = spec_error_name(code).unwrap();
        assert(name.subrange(0, 4) =~= seq!['E', 'S', 'P', '_']);
        assert(name.subrange(0, 8) =~= seq!['E', 'S', 'P', '_', 'E', 'R', 'R', '_']);
        assert forall|j: int| 0 <= j < name.len() implies is_name_char(#[trigger] name[j]) by {
            if j == 0 {
            } else if j == 1 {
            } else if j == 2 {
            } else if j == 3 {
            } else if j == 4 {
            } else if j == 5 {
            } else if j == 6 {
            } else if j == 7 {
            } else if j == 8 {
            } else if j == 9 {
            } else if j == 10 {
            } else if j == 11 {
            } else if j == 12 {
            } else if j == 13 {
            } else if j == 14 {
            } else if j == 15 {
            } else if j == 16 {
            } else if j == 17 {
            } else if j == 18 {
            } else if j == 19 {
            } else if j == 20 {
            } else if j == 21 {
            } else if j == 22 {
            } else if j == 23 {
            } else if j == 24 {
            } else if j == 25 {
            } else if j == 26 {
            } else if j == 27 {
            } else if j == 28 {
            } else if j == 29 {
            }
        }
    } else if code == 0x7009 {
        reveal_strlit("ESP_ERR_HTTP_NOT_MODIFIED");
        reveal_strlit("[ESP_ERR_HTTP_NOT_MODIFIED]: HTTP 304 Not Modified, no update available");
        assert(spec_error_info(code).unwrap().subrange(0, spec_error_name(code).unwrap().len() + 4int)
            =~= seq!['['] + spec_error_name(code).unwrap() + seq![']', ':', ' ']);
        assert(ESP_IDF_ERROR_CODES@[157] == code);
        let name = spec_error_name(code).unwrap();
        assert(name.subrange(0, 4) =~= seq!['E', 'S', 'P', '_']);
        assert(name.subrange(0, 8) =~= seq!['E', 'S', 'P', '_', 'E', 'R', 'R', '_']);
        assert forall|j: int| 0 <= j < name.len() implies is_name_char(#[trigger] name[j]) by {
            if j == 0 {
            } else if j == 1 {
            } else if j == 2 {
            } else if j == 3 {
            } else if j == 4 {
            } else if j == 5 {
            } else if j == 6 {
            } else if j == 7 {
            } else if j == 8 {
            } else if j == 9 {
            } else if j == 10 {
            } else if j == 11 {
            } else if j == 12 {
            } else if j == 13 {
            } else if j == 14 {
            } else if j == 15 {
            } else if j == 16 {
            } else if j == 17 {
            } else if j == 18 {
            } else if j == 19 {
            } else if j == 20 {
            } else if j == 21 {
            } else if j == 22 {
            } else if j == 23 {
            } else if j == 24 {
            }
        }
    } else if code == 0x700a {
        reveal_strlit("ESP_ERR_HTTP_RANGE_NOT_SATISFIABLE");
        reveal_strlit("[ESP_ERR_HTTP_RANGE_NOT_SATISFIABLE]: HTTP 416 Range Not Satisfiable, requested range in header is incorrect");
        assert(spec_error_info(code).unwrap().subrange(0, spec_error_name(code).unwrap().len() + 4int)
            =~= seq!['['] + spec_error_name(code).unwrap() + seq![']', ':', ' ']);
        assert(ESP_IDF_ERROR_CODES@[158] == code);
        let name = spec_error_name(code).unwrap();
        assert(name.subrange(0, 4) =~= seq!['E', 'S', 'P', '_']);
        assert(name.subrange(0, 8) =~= seq!['E', 'S', 'P', '_', 'E', 'R', 'R', '_']);
        assert forall|j: int| 0 <= j < name.len() implies is_name_char(#[trigger] name[j]) by {
            if j == 0 {
            } else if j == 1 {
            } else if j == 2 {
            } else if j == 3 {
            } else if j == 4 {
            } else if j == 5 {
            } else if j == 6 {
            } else if j == 7 {
            } else if j == 8 {
            } else if j == 9 {
            } else if j == 10 {
            } else if j == 11 {
            } else if j == 12 {
            } else if j == 13 {
            } else if j == 14 {
            } else if j == 15 {
            } else if j == 16 {
            } else if j == 17 {
            } else if j == 18 {
            } else if j == 19 {
            } else if j == 20 {
            } else if j == 21 {
            } else if j == 22 {
            } else if j == 23 {
            } else if j == 24 {
            } else if j == 25 {
            } else if j == 26 {
            } else if j == 27 {
            } else if j == 28 {
            } else if j == 29 {
            } else if j == 30 {
            } else if j == 31 {
            } else if j == 32 {
            } else if j == 33 {
            }
        }
    } else if code == 0x700b {
        reveal_strlit("ESP_ERR_HTTP_READ_TIMEOUT");
        reveal_strlit("[ESP_ERR_HTTP_READ_TIMEOUT]: HTTP data read timeout");
        assert(spec_error_info(code).unwrap().subrange(0, spec_error_name(code).unwrap().len() + 4int)
            =~= seq!['['] + spec_error_name(code).unwrap() + seq![']', ':', ' ']);
        assert(ESP_IDF_ERROR_CODES@[159] == code);
        let name = spec_error_name(code).unwrap();
        assert(name.subrange(0, 4) =~= seq!['E', 'S', 'P', '_']);
        assert(name.subrange(0, 8) =~= seq!['E', 'S', 'P', '_', 'E', 'R', 'R', '_']);
        assert forall|j: int| 0 <= j < name.len() implies is_name_char(#[trigger] name[j]) by {
            if j == 0 {
            } else if j == 1 {
            } else if j == 2 {
            } else if j == 3 {
            } else if j == 4 {
            } else if j == 5 {
            } else if j == 6 {
            } else if j == 7 {
            } else if j == 8 {
            } else if j == 9 {
            } else if j == 10 {
            } else if j == 11 {
            } else if j == 12 {
            } else if j == 13 {
            } else if j == 14 {
            } else if j == 15 {
            } else if j == 16 {
            } else if j == 17 {
            } else if j == 18 {
            } else if j == 19 {
            } else if j == 20 {
            } else if j == 21 {
            } else if j == 22 {
            } else if j == 23 {
            } else if j == 24 {
            }
        }
    }
}

/// Entries 144 to 159 of `ESP_IDF_ERROR_CODES` are known codes, each below the next.
proof fn lemma_table_indices_9(i: int)
    requires
        144 <= i < 160,
    ensures
        is_error_code(ESP_IDF_ERROR_CODES@[i]),
        ESP_IDF_ERROR_CODES@[i] < ESP_IDF_ERROR_CODES@[i + 1],
{
    if i == 144 {
        assert(ESP_IDF_ERROR_CODES@[i] == 0x6002);
        assert(ESP_IDF_ERROR_CODES@[i + 1] == 0x6003);
    } else if i == 145 {
        assert(ESP_IDF_ERROR_CODES@[i] == 0x6003);
        assert(ESP_IDF_ERROR_CODES@[i + 1] == 0x6004);
    } else if i == 146 {
        assert(ESP_IDF_ERROR_CODES@[i] == 0x6004);
        assert(ESP_IDF_ERROR_CODES@[i + 1] == 0x6005);
    } else if i == 147 {
        assert(ESP_IDF_ERROR_CODES@[i] == 0x6005);
        assert(ESP_IDF_ERROR_CODES@[i + 1] == 0x6006);
    } else if i == 148 {
        assert(ESP_IDF_ERROR_CODES@[i] == 0x6006);
        assert(ESP_IDF_ERROR_CODES@[i + 1] == 0x7001);
    } else if i == 149 {
        assert(ESP_IDF_ERROR_CODES@[i] == 0x7001);
        assert(ESP_IDF_ERROR_CODES@[i + 1] == 0x7002);
    } else if i == 150 {
        assert(ESP_IDF_ERROR_CODES@[i] == 0x7002);
        assert(ESP_IDF_ERROR_CODES@[i + 1] == 0x7003);
    } else if i == 151 {
        assert(ESP_IDF_ERROR_CODES@[i] == 0x7003);
        assert(ESP_IDF_ERROR_CODES@[i + 1] == 0x7004);
    } else if i == 152 {
        assert(ESP_IDF_ERROR_CODES@[i] == 0x7004);
        assert(ESP_IDF_ERROR_CODES@[i + 1] == 0x7005);
    } else if i == 153 {
        assert(ESP_IDF_ERROR_CODES@[i] == 0x7005);
        assert(ESP_IDF_ERROR_CODES@[i + 1] == 0x7006);
    } else if i == 154 {
        assert(ESP_IDF_ERROR_CODES@[i] == 0x7006);
        assert(ESP_IDF_ERROR_CODES@[i + 1] == 0x7007);
    } else if i == 155 {
        assert(ESP_IDF_ERROR_CODES@[i] == 0x7007);
        assert(ESP_IDF_ERROR_CODES@[i + 1] == 0x7008);
    } else if i == 156 {
        assert(ESP_IDF_ERROR_CODES@[i] == 0x7008);
        assert(ESP_IDF_ERROR_CODES@[i + 1] == 0x7009);
    } else if i == 157 {
        assert(ESP_IDF_ERROR_CODES@[i] == 0x7009);
        assert(ESP_IDF_ERROR_CODES@[i + 1] == 0x700a);
    } else if i == 158 {
        assert(ESP_IDF_ERROR_CODES@[i] == 0x700a);
        assert(ESP_IDF_ERROR_CODES@[i + 1] == 0x700b);
    } else if i == 159 {
        assert(ESP_IDF_ERROR_CODES@[i] == 0x700b);
        assert(ESP_IDF_ERROR_CODES@[i + 1] == 0x700c);
    }
}

/// The table facts for every code from `0x700c` to `0x8015`.
proof fn lemma_table_codes_10(code: i32)
    requires
        0x700c <= code <= 0x8015,
    ensures
        table_facts(code),
{
    if code == 0x700c {
        reveal_strlit("ESP_ERR_HTTP_INCOMPLETE_DATA");
        reveal_strlit("[ESP_ERR_HTTP_INCOMPLETE_DATA]: Incomplete data received, less than Content-Length or last chunk");
        assert(spec_error_info(code).unwrap().subrange(0, spec_error_name(code).unwrap().len() + 4int)
            =~= seq!['['] + spec_error_name(code).unwrap() + seq![']', ':', ' ']);
        assert(ESP_IDF_ERROR_CODES@[160] == code);
        let name = spec_error_name(code).unwrap();
        assert(name.subrange(0, 4) =~= seq!['E', 'S', 'P', '_']);
        assert(name.subrange(0, 8) =~= seq!['E', 'S', 'P', '_', 'E', 'R', 'R', '_']);
        assert forall|j: int| 0 <= j < name.len() implies is_name_char(#[trigger] name[j]) by {
            if j == 0 {
            } else if j == 1 {
            } else if j == 2 {
            } else if j == 3 {
            } else if j == 4 {
            } else if j == 5 {
            } else if j == 6 {
            } else if j == 7 {
            } else if j == 8 {
            } else if j == 9 {
            } else if j == 10 {
            } else if j == 11 {
            } else if j == 12 {
            } else if j == 13 {
            } else if j == 14 {
            } else if j == 15 {
            } else if j == 16 {
            } else if j == 17 {
            } else if j == 18 {
            } else if j == 19 {
            } else if j == 20 {
            } else if j == 21 {
            } else if j == 22 {
            } else if j == 23 {
            } else if j == 24 {
            } else if j == 25 {
            } else if j == 26 {
            } else if j == 27 {
            }
        }
    } else if code == 0x8001 {
        reveal_strlit("ESP_ERR_ESP_TLS_CANNOT_RESOLVE_HOSTNAME");
        reveal_strlit("[ESP_ERR_ESP_TLS_CANNOT_RESOLVE_HOSTNAME]: Error if hostname couldn't be resolved upon tls connection");
        assert(spec_error_info(code).unwrap().subrange(0, spec_error_name(code).unwrap().len() + 4int)
            =~= seq!['['] + spec_error_name(code).unwrap() + seq![']', ':', ' ']);
        assert(ESP_IDF_ERROR_CODES@[161] == code);
        let name = spec_error_name(code).unwrap();
        assert(name.subrange(0, 4) =~= seq!['E', 'S', 'P', '_']);
        assert(name.subrange(0, 8) =~= seq!['E', 'S', 'P', '_', 'E', 'R', 'R', '_']);
        assert forall|j: int| 0 <= j < name.len() implies is_name_char(#[trigger] name[j]) by {
            if j == 0 {
            } else if j == 1 {
            } else if j == 2 {
            } else if j == 3 {
            } else if j == 4 {
            } else if j == 5 {
            } else if j == 6 {
            } else if j == 7 {
            } else if j == 8 {
            } else if j == 9 {
            } else if j == 10 {
            } else if j == 11 {
            } else if j == 12 {
            } else if j == 13 {
            } else if j == 14 {
            } else if j == 15 {
            } else if j == 16 {
            } else if j == 17 {
            } else if j == 18 {
            } else if j == 19 {
            } else if j == 20 {
            } else if j == 21 {
            } else if j == 22 {
            } else if j == 23 {
            } else if j == 24 {
            } else if j == 25 {
            } else if j == 26 {
            } else if j == 27 {
            } else if j == 28 {
            } else if j == 29 {
            } else if j == 30 {
            } else if j == 31 {
            } else if j == 32 {
            } else if j == 33 {
            } else if j == 34 {
            } else if j == 35 {
            } else if j == 36 {
            } else if j == 37 {
            } else if j == 38 {
            }
        }
    } else if code == 0x8002 {
        reveal_strlit("ESP_ERR_ESP_TLS_CANNOT_CREATE_SOCKET");
        reveal_strlit("[ESP_ERR_ESP_TLS_CANNOT_CREATE_SOCKET]: Failed to create socket");
        assert(spec_error_info(code).unwrap().subrange(0, spec_error_name(code).unwrap().len() + 4int)
            =~= seq!['['] + spec_error_name(code).unwrap() + seq![']', ':', ' ']);
        assert(ESP_IDF_ERROR_CODES@[162] == code);
        let name = spec_error_name(code).unwrap();
        assert(name.subrange(0, 4) =~= seq!['E', 'S', 'P', '_']);
        assert(name.subrange(0, 8) =~= seq!['E', 'S', 'P', '_', 'E', 'R', 'R', '_']);
        assert forall|j: int| 0 <= j < name.len() implies is_name_char(#[trigger] name[j]) by {
            if j == 0 {
            } else if j == 1 {
            } else if j == 2 {
            } else if j == 3 {
            } else if j == 4 {
            } else if j == 5 {
            } else if j == 6 {
            } else if j == 7 {
            } else if j == 8 {
            } else if j == 9 {
            } else if j == 10 {
            } else if j == 11 {
            } else if j == 12 {
            } else if j == 13 {
            } else if j == 14 {
            } else if j == 15 {
            } else if j == 16 {
            } else if j == 17 {
            } else if j == 18 {
            } else if j == 19 {
            } else if j == 20 {
            } else if j == 21 {
            } else if j == 22 {
            } else if j == 23 {
            } else if j == 24 {
            } else if j == 25 {
            } else if j == 26 {
            } else if j == 27 {
            } else if j == 28 {
            } else if j == 29 {
            } else if j == 30 {
            } else if j == 31 {
            } else if j == 32 {
            } else if j == 33 {
            } else if j == 34 {
            } else if j == 35 {
            }
        }
    } else if code == 0x8003 {
        reveal_strlit("ESP_ERR_ESP_TLS_UNSUPPORTED_PROTOCOL_FAMILY");
        reveal_strlit("[ESP_ERR_ESP_TLS_UNSUPPORTED_PROTOCOL_FAMILY]: Unsupported protocol family");
        assert(spec_error_info(code).unwrap().subrange(0, spec_error_name(code).unwrap().len() + 4int)
            =~= seq!['['] + spec_error_name(code).unwrap() + seq![']', ':', ' ']);
        assert(ESP_IDF_ERROR_CODES@[163] == code);
        let name = spec_error_name(code).unwrap();
        assert(name.subrange(0, 4) =~= seq!['E', 'S', 'P', '_']);
        assert(name.subrange(0, 8) =~= seq!['E', 'S', 'P', '_', 'E', 'R', 'R', '_']);
        assert forall|j: int| 0 <= j < name.len() implies is_name_char(#[trigger] name[j]) by {
            if j == 0 {
            } else if j == 1 {
            } else if j == 2 {
            } else if j == 3 {
            } else if j == 4 {
            } else if j == 5 {
            } else if j == 6 {
            } else if j == 7 {
            } else if j == 8 {
            } else if j == 9 {
            } else if j == 10 {
            } else if j == 11 {
            } else if j == 12 {
            } else if j == 13 {
            } else if j == 14 {
            } else if j == 15 {
            } else if j == 16 {
            } else if j == 17 {
            } else if j == 18 {
            } else if j == 19 {
            } else if j == 20 {
            } else if j == 21 {
            } else if j == 22 {
            } else if j == 23 {
            } else if j == 24 {
            } else if j == 25 {
            } else if j == 26 {
            } else if j == 27 {
            } else if j == 28 {
            } else if j == 29 {
            } else if j == 30 {
            } else if j == 31 {
            } else if j == 32 {
            } else if j == 33 {
            } else if j == 34 {
            } else if j == 35 {
            } else if j == 36 {
            } else if j == 37 {
            } else if j == 38 {
            } else if j == 39 {
            } else if j == 40 {
            } else if j == 41 {
            } else if j == 42 {
            }
        }
    } else if code == 0x8004 {
        reveal_strlit("ESP_ERR_ESP_TLS_FAILED_CONNECT_TO_HOST");
        reveal_strlit("[ESP_ERR_ESP_TLS_FAILED_CONNECT_TO_HOST]: Failed to connect to host");
        assert(spec_error_info(code).unwrap().subrange(0, spec_error_name(code).unwrap().len() + 4int)
            =~= seq!['['] + spec_error_name(code).unwrap() + seq![']', ':', ' ']);
        assert(ESP_IDF_ERROR_CODES@[164] == code);
        let name = spec_error_name(code).unwrap();
        assert(name.subrange(0, 4) =~= seq!['E', 'S', 'P', '_']);
        assert(name.subrange(0, 8) =~= seq!['E', 'S', 'P', '_', 'E', 'R', 'R', '_']);
        assert forall|j: int| 0 <= j < name.len() implies is_name_char(#[trigger] name[j]) by {
            if j == 0 {
            } else if j == 1 {
            } else if j == 2 {
            } else if j == 3 {
            } else if j == 4 {
            } else if j == 5 {
            } else if j == 6 {
            } else if j == 7 {
            } else if j == 8 {
            } else if j == 9 {
            } else if j == 10 {
            } else if j == 11 {
            } else if j == 12 {
            } else if j == 13 {
            } else if j == 14 {
            } else if j == 15 {
            } else if j == 16 {
            } else if j == 17 {
            } else if j == 18 {
            } else if j == 19 {
            } else if j == 20 {
            } else if j == 21 {
            } else if j == 22 {
            } else if j == 23 {
            } else if j == 24 {
            } else if j == 25 {
            } else if j == 26 {
            } else if j == 27 {
            } else if j == 28 {
            } else if j == 29 {
            } else if j == 30 {
            } else if j == 31 {
            } else if j == 32 {
            } else if j == 33 {
            } else if j == 34 {
            } else if j == 35 {
            } else if j == 36 {
            } else if j == 37 {
            }
        }
    } else if code == 0x8005 {
        reveal_strlit("ESP_ERR_ESP_TLS_SOCKET_SETOPT_FAILED");
        reveal_strlit("[ESP_ERR_ESP_TLS_SOCKET_SETOPT_FAILED]: failed to set/get socket option");
        assert(spec_error_info(code).unwrap().subrange(0, spec_error_name(code).unwrap().len() + 4int)
            =~= seq!['['] + spec_error_name(code).unwrap() + seq![']', ':', ' ']);
        assert(ESP_IDF_ERROR_CODES@[165] == code);
        let name = spec_error_name(code).unwrap();
        assert(name.subrange(0, 4) =~= seq!['E', 'S', 'P', '_']);
        assert(name.subrange(0, 8) =~= seq!['E', 'S', 'P', '_', 'E', 'R', 'R', '_']);
        assert forall|j: int| 0 <= j < name.len() implies is_name_char(#[trigger] name[j]) by {
            if j == 0 {
            } else if j == 1 {
            } else if j == 2 {
            } else if j == 3 {
            } else if j == 4 {
            } else if j == 5 {
            } else if j == 6 {
            } else if j == 7 {
            } else if j == 8 {
            } else if j == 9 {
            } else if j == 10 {
            } else if j == 11 {
            } else if j == 12 {
            } else if j == 13 {
            } else if j == 14 {
            } else if j == 15 {
            } else if j == 16 {
            } else if j == 17 {
            } else if j == 18 {
            } else if j == 19 {
            } else if j == 20 {
            } else if j == 21 {
            } else if j == 22 {
            } else if j == 23 {
            } else if j == 24 {
            } else if j == 25 {
            } else if j == 26 {
            } else if j == 27 {
            } else if j == 28 {
            } else if j == 29 {
            } else if j == 30 {
            } else if j == 31 {
            } else if j == 32 {
            } else if j == 33 {
            } else if j == 34 {
            } else if j == 35 {
            }
        }
    } else if code == 0x8006 {
        reveal_strlit("ESP_ERR_ESP_TLS_CONNECTION_TIMEOUT");
        reveal_strlit("[ESP_ERR_ESP_TLS_CONNECTION_TIMEOUT]: new connection in esp_tls_low_level_conn connection timeouted");
        assert(spec_error_info(code).unwrap().subrange(0, spec_error_name(code).unwrap().len() + 4int)
            =~= seq!['['] + spec_error_name(code).unwrap() + seq![']', ':', ' ']);
        assert(ESP_IDF_ERROR_CODES@[166] == code);
        let name = spec_error_name(code).unwrap();
        assert(name.subrange(0, 4) =~= seq!['E', 'S', 'P', '_']);
        assert(name.subrange(0, 8) =~= seq!['E', 'S', 'P', '_', 'E', 'R', 'R', '_']);
        assert forall|j: int| 0 <= j < name.len() implies is_name_char(#[trigger] name[j]) by {
            if j == 0 {
            } else if j == 1 {
            } else if j == 2 {
            } else if j == 3 {
            } else if j == 4 {
            } else if j == 5 {
            } else if j == 6 {
            } else if j == 7 {
            } else if j == 8 {
            } else if j == 9 {
            } else if j == 10 {
            } else if j == 11 {
            } else if j == 12 {
            } else if j == 13 {
            } else if j == 14 {
            } else if j == 15 {
            } else if j == 16 {
            } else if j == 17 {
            } else if j == 18 {
            } else if j == 19 {
            } else if j == 20 {
            } else if j == 21 {
            } else if j == 22 {
            } else if j == 23 {
            } else if j == 24 {
            } else if j == 25 {
            } else if j == 26 {
            } else if j == 27 {
            } else if j == 28 {
            } else if j == 29 {
            } else if j == 30 {
            } else if j == 31 {
            } else if j == 32 {
            } else if j == 33 {
            }
        }
    } else if code == 0x8007 {
        reveal_strlit("ESP_ERR_ESP_TLS_SE_FAILED");
        reveal_strlit("[ESP_ERR_ESP_TLS_SE_FAILED]: No further error description");
        assert(spec_error_info(code).unwrap().subrange(0, spec_error_name(code).unwrap().len() + 4int)
            =~= seq!['['] + spec_error_name(code).unwrap() + seq![']', ':', ' ']);
        assert(ESP_IDF_ERROR_CODES@[167] == code);
        let name = spec_error_name(code).unwrap();
        assert(name.subrange(0, 4) =~= seq!['E', 'S', 'P', '_']);
        assert(name.subrange(0, 8) =~= seq!['E', 'S', 'P', '_', 'E', 'R', 'R', '_']);
        assert forall|j: int| 0 <= j < name.len() implies is_name_char(#[trigger] name[j]) by {
            if j == 0 {
            } else if j == 1 {
            } else if j == 2 {
            } else if j == 3 {
            } else if j == 4 {
            } else if j == 5 {
            } else if j == 6 {
            } else if j == 7 {
            } else if j == 8 {
            } else if j == 9 {
            } else if j == 10 {
            } else if j == 11 {
            } else if j == 12 {
            } else if j == 13 {
            } else if j == 14 {
            } else if j == 15 {
            } else if j == 16 {
            } else if j == 17 {
            } else if j == 18 {
            } else if j == 19 {
            } else if j == 20 {
            } else if j == 21 {
            } else if j == 22 {
            } else if j == 23 {
            } else if j == 24 {
            }
        }
    } else if code == 0x8008 {
        reveal_strlit("ESP_ERR_ESP_TLS_TCP_CLOSED_FIN");
        reveal_strlit("[ESP_ERR_ESP_TLS_TCP_CLOSED_FIN]: No further error description");
        assert(spec_error_info(code).unwrap().subrange(0, spec_error_name(code).unwrap().len() + 4int)
            =~= seq!['['] + spec_error_name(code).unwrap() + seq![']', ':', ' ']);
        assert(ESP_IDF_ERROR_CODES@[168] == code);
        let name = spec_error_name(code).unwrap();
        assert(name.subrange(0, 4) =~= seq!['E', 'S', 'P', '_']);
        assert(name.subrange(0, 8) =~= seq!['E', 'S', 'P', '_', 'E', 'R', 'R', '_']);
        assert forall|j: int| 0 <= j < name.len() implies is_name_char(#[trigger] name[j]) by {
            if j == 0 {
            } else if j == 1 {
            } else if j == 2 {
            } else if j == 3 {
            } else if j == 4 {
            } else if j == 5 {
            } else if j == 6 {
            } else if j == 7 {
            } else if j == 8 {
            } else if j == 9 {
            } else if j == 10 {
            } else if j == 11 {
            } else if j == 12 {
            } else if j == 13 {
            } else if j == 14 {
            } else if j == 15 {
            } else if j == 16 {
            } else if j == 17 {
            } else if j == 18 {
            } else if j == 19 {
            } else if j == 20 {
            } else if j == 21 {
            } else if j == 22 {
            } else if j == 23 {
            } else if j == 24 {
            } else if j == 25 {
            } else if j == 26 {
            } else if j == 27 {
            } else if j == 28 {
            } else if j == 29 {
            }
        }
    } else if code == 0x8009 {
        reveal_strlit("ESP_ERR_ESP_TLS_SERVER_HANDSHAKE_TIMEOUT");
        reveal_strlit("[ESP_ERR_ESP_TLS_SERVER_HANDSHAKE_TIMEOUT]: TLS handshake timeout");
        assert(spec_error_info(code).unwrap().subrange(0, spec_error_name(code).unwrap().len() + 4int)
            =~= seq!['['] + spec_error_name(code).unwrap() + seq![']', ':', ' ']);
        assert(ESP_IDF_ERROR_CODES@[169] == code);
        let name = spec_error_name(code).unwrap();
        assert(name.subrange(0, 4) =~= seq!['E', 'S', 'P', '_']);
        assert(name.subrange(0, 8) =~= seq!['E', 'S', 'P', '_', 'E', 'R', 'R', '_']);
        assert forall|j: int| 0 <= j < name.len() implies is_name_char(#[trigger] name[j]) by {
            if j == 0 {
            } else if j == 1 {
            } else if j == 2 {
            } else if j == 3 {
            } else if j == 4 {
            } else if j == 5 {
            } else if j == 6 {
            } else if j == 7 {
            } else if j == 8 {
            } else if j == 9 {
            } else if j == 10 {
            } else if j == 11 {
            } else if j == 12 {
            } else if j == 13 {
            } else if j == 14 {
            } else if j == 15 {
            } else if j == 16 {
            } else if j == 17 {
            } else if j == 18 {
            } else if j == 19 {
            } else if j == 20 {
            } else if j == 21 {
            } else if j == 22 {
            } else if j == 23 {
            } else if j == 24 {
            } else if j == 25 {
            } else if j == 26 {
            } else if j == 27 {
            } else if j == 28 {
            } else if j == 29 {
            } else if j == 30 {
            } else if j == 31 {
            } else if j == 32 {
            } else if j == 33 {
            } else if j == 34 {
            } else if j == 35 {
            } else if j == 36 {
            } else if j == 37 {
            } else if j == 38 {
            } else if j == 39 {
            }
        }
    } else if code == 0x8010 {
        reveal_strlit("ESP_ERR_MBEDTLS_CERT_PARTLY_OK");
        reveal_strlit("[ESP_ERR_MBEDTLS_CERT_PARTLY_OK]: mbedtls parse certificates was partly successful");
        assert(spec_error_info(code).unwrap().subrange(0, spec_error_name(code).unwrap().len() + 4int)
            =~= seq!['['] + spec_error_name(code).unwrap() + seq![']', ':', ' ']);
        assert(ESP_IDF_ERROR_CODES@[170] == code);
        let name = spec_error_name(code).unwrap();
        assert(name.subrange(0, 4) =~= seq!['E', 'S', 'P', '_']);
        assert(name.subrange(0, 8) =~= seq!['E', 'S', 'P', '_', 'E', 'R', 'R', '_']);
        assert forall|j: int| 0 <= j < name.len() implies is_name_char(#[trigger] name[j]) by {
            if j == 0 {
            } else if j == 1 {
            } else if j == 2 {
            } else if j == 3 {
            } else if j == 4 {
            } else if j == 5 {
            } else if j == 6 {
            } else if j == 7 {
            } else if j == 8 {
            } else if j == 9 {
            } else if j == 10 {
            } else if j == 11 {
            } else if j == 12 {
            } else if j == 13 {
            } else if j == 14 {
            } else if j == 15 {
            } else if j == 16 {
            } else if j == 17 {
            } else if j == 18 {
            } else if j == 19 {
            } else if j == 20 {
            } else if j == 21 {
            } else if j == 22 {
            } else if j == 23 {
            } else if j == 24 {
            } else if j == 25 {
            } else if j == 26 {
            } else if j == 27 {
            } else if j == 28 {
            } else if j == 29 {
            }
        }
    } else if code == 0x8011 {
        reveal_strlit("ESP_ERR_MBEDTLS_CTR_DRBG_SEED_FAILED");
        reveal_strlit("[ESP_ERR_MBEDTLS_CTR_DRBG_SEED_FAILED]: mbedtls api returned error");
        assert(spec_error_info(code).unwrap().subrange(0, spec_error_name(code).unwrap().len() + 4int)
            =~= seq!['['] + spec_error_name(code).unwrap() + seq![']', ':', ' ']);
        assert(ESP_IDF_ERROR_CODES@[171] == code);
        let name = spec_error_name(code).unwrap();
        assert(name.subrange(0, 4) =~= seq!['E', 'S', 'P', '_']);
        assert(name.subrange(0, 8) =~= seq!['E', 'S', 'P', '_', 'E', 'R', 'R', '_']);
        assert forall|j: int| 0 <= j < name.len() implies is_name_char(#[trigger] name[j]) by {
            if j == 0 {
            } else if j == 1 {
            } else if j == 2 {
            } else if j == 3 {
            } else if j == 4 {
            } else if j == 5 {
            } else if j == 6 {
            } else if j == 7 {
            } else if j == 8 {
            } else if j == 9 {
            } else if j == 10 {
            } else if j == 11 {
            } else if j == 12 {
            } else if j == 13 {
            } else if j == 14 {
            } else if j == 15 {
            } else if j == 16 {
            } else if j == 17 {
            } else if j == 18 {
            } else if j == 19 {
            } else if j == 20 {
            } else if j == 21 {
            } else if j == 22 {
            } else if j == 23 {
            } else if j == 24 {
            } else if j == 25 {
            } else if j == 26 {
            } else if j == 27 {
            } else if j == 28 {
            } else if j == 29 {
            } else if j == 30 {
            } else if j == 31 {
            } else if j == 32 {
            } else if j == 33 {
            } else if j == 34 {
            } else if j == 35 {
            }
        }
    } else if code == 0x8012 {
        reveal_strlit("ESP_ERR_MBEDTLS_SSL_SET_HOSTNAME_FAILED");
        reveal_strlit("[ESP_ERR_MBEDTLS_SSL_SET_HOSTNAME_FAILED]: mbedtls api returned error");
        assert(spec_error_info(code).unwrap().subrange(0, spec_error_name(code).unwrap().len() + 4int)
            =~= seq!['['] + spec_error_name(code).unwrap() + seq![']', ':', ' ']);
        assert(ESP_IDF_ERROR_CODES@[172] == code);
        let name = spec_error_name(code).unwrap();
        assert(name.subrange(0, 4) =~= seq!['E', 'S', 'P', '_']);
        assert(name.subrange(0, 8) =~= seq!['E', 'S', 'P', '_', 'E', 'R', 'R', '_']);
        assert forall|j: int| 0 <= j < name.len() implies is_name_char(#[trigger] name[j]) by {
            if j == 0 {
            } else if j == 1 {
            } else if j == 2 {
            } else if j == 3 {
            } else if j == 4 {
            } else if j == 5 {
            } else if j == 6 {
            } else if j == 7 {
            } else if j == 8 {
            } else if j == 9 {
            } else if j == 10 {
            } else if j == 11 {
            } else if j == 12 {
            } else if j == 13 {
            } else if j == 14 {
            } else if j == 15 {
            } else if j == 16 {
            } else if j == 17 {
            } else if j == 18 {
            } else if j == 19 {
            } else if j == 20 {
            } else if j == 21 {
            } else if j == 22 {
            } else if j == 23 {
            } else if j == 24 {
            } else if j == 25 {
            } else if j == 26 {
            } else if j == 27 {
            } else if j == 28 {
            } else if j == 29 {
            } else if j == 30 {
            } else if j == 31 {
            } else if j == 32 {
            } else if j == 33 {
            } else if j == 34 {
            } else if j == 35 {
            } else if j == 36 {
            } else if j == 37 {
            } else if j == 38 {
            }
        }
    } else if code == 0x8013 {
        reveal_strlit("ESP_ERR_MBEDTLS_SSL_CONFIG_DEFAULTS_FAILED");
        reveal_strlit("[ESP_ERR_MBEDTLS_SSL_CONFIG_DEFAULTS_FAILED]: mbedtls api returned error");
        assert(spec_error_info(code).unwrap().subrange(0, spec_error_name(code).unwrap().len() + 4int)
            =~= seq!['['] + spec_error_name(code).unwrap() + seq![']', ':', ' ']);
        assert(ESP_IDF_ERROR_CODES@[173] == code);
        let name = spec_error_name(code).unwrap();
        assert(name.subrange(0, 4) =~= seq!['E', 'S', 'P', '_']);
        assert(name.subrange(0, 8) =~= seq!['E', 'S', 'P', '_', 'E', 'R', 'R', '_']);
        assert forall|j: int| 0 <= j < name.len() implies is_name_char(#[trigger] name[j]) by {
            if j == 0 {
            } else if j == 1 {
            } else if j == 2 {
            } else if j == 3 {
            } else if j == 4 {
            } else if j == 5 {
            } else if j == 6 {
            } else if j == 7 {
            } else if j == 8 {
            } else if j == 9 {
            } else if j == 10 {
            } else if j == 11 {
            } else if j == 12 {
            } else if j == 13 {
            } else if j == 14 {
            } else if j == 15 {
            } else if j == 16 {
            } else if j == 17 {
            } else if j == 18 {
            } else if j == 19 {
            } else if j == 20 {
            } else if j == 21 {
            } else if j == 22 {
            } else if j == 23 {
            } else if j == 24 {
            } else if j == 25 {
            } else if j == 26 {
            } else if j == 27 {
            } else if j == 28 {
            } else if j == 29 {
            } else if j == 30 {
            } else if j == 31 {
            } else if j == 32 {
            } else if j == 33 {
            } else if j == 34 {
            } else if j == 35 {
            } else if j == 36 {
            } else if j == 37 {
            } else if j == 38 {
            } else if j == 39 {
            } else if j == 40 {
            } else if j == 41 {
            }
        }
    } else if code == 0x8014 {
        reveal_strlit("ESP_ERR_MBEDTLS_SSL_CONF_ALPN_PROTOCOLS_FAILED");
        reveal_strlit("[ESP_ERR_MBEDTLS_SSL_CONF_ALPN_PROTOCOLS_FAILED]: mbedtls api returned error");
        assert(spec_error_info(code).unwrap().subrange(0, spec_error_name(code).unwrap().len() + 4int)
            =~= seq!['['] + spec_error_name(code).unwrap() + seq![']', ':', ' ']);
        assert(ESP_IDF_ERROR_CODES@[174] == code);
        let name = spec_error_name(code).unwrap();
        assert(name.subrange(0, 4) =~= seq!['E', 'S', 'P', '_']);
        assert(name.subrange(0, 8) =~= seq!['E', 'S', 'P', '_', 'E', 'R', 'R', '_']);
        assert forall|j: int| 0 <= j < name.len() implies is_name_char(#[trigger] name[j]) by {
            if j == 0 {
            } else if j == 1 {
            } else if j == 2 {
            } else if j == 3 {
            } else if j == 4 {
            } else if j == 5 {
            } else if j == 6 {
            } else if j == 7 {
            } else if j == 8 {
            } else if j == 9 {
            } else if j == 10 {
            } else if j == 11 {
            } else if j == 12 {
            } else if j == 13 {
            } else if j == 14 {
            } else if j == 15 {
            } else if j == 16 {
            } else if j == 17 {
            } else if j == 18 {
            } else if j == 19 {
            } else if j == 20 {
            } else if j == 21 {
            } else if j == 22 {
            } else if j == 23 {
            } else if j == 24 {
            } else if j == 25 {
            } else if j == 26 {
            } else if j == 27 {
            } else if j == 28 {
            } else if j == 29 {
            } else if j == 30 {
            } else if j == 31 {
            } else if j == 32 {
            } else if j == 33 {
            } else if j == 34 {
            } else if j == 35 {
            } else if j == 36 {
            } else if j == 37 {
            } else if j == 38 {
            } else if j == 39 {
            } else if j == 40 {
            } else if j == 41 {
            } else if j == 42 {
            } else if j == 43 {
            } else if j == 44 {
            } else if j == 45 {
            }
        }
    } else if code == 0x8015 {
        reveal_strlit("ESP_ERR_MBEDTLS_X509_CRT_PARSE_FAILED");
        reveal_strlit("[ESP_ERR_MBEDTLS_X509_CRT_PARSE_FAILED]: mbedtls api returned error");
        assert(spec_error_info(code).unwrap().subrange(0, spec_error_name(code).unwrap().len() + 4int)
            =~= seq!['['] + spec_error_name(code).unwrap() + seq![']', ':', ' ']);
        assert(ESP_IDF_ERROR_CODES@[175] == code);
        let name = spec_error_name(code).unwrap();
        assert(name.subrange(0, 4) =~= seq!['E', 'S', 'P', '_']);
        assert(name.subrange(0, 8) =~= seq!['E', 'S', 'P', '_', 'E', 'R', 'R', '_']);
        assert forall|j: int| 0 <= j < name.len() implies is_name_char(#[trigger] name[j]) by {
            if j == 0 {
            } else if j == 1 {
            } else if j == 2 {
            } else if j == 3 {
            } else if j == 4 {
            } else if j == 5 {
            } else if j == 6 {
            } else if j == 7 {
            } else if j == 8 {
            } else if j == 9 {
            } else if j == 10 {
            } else if j == 11 {
            } else if j == 12 {
            } else if j == 13 {
            } else if j == 14 {
            } else if j == 15 {
            } else if j == 16 {
            } else if j == 17 {
            } else if j == 18 {
            } else if j == 19 {
            } else if j == 20 {
            } else if j == 21 {
            } else if j == 22 {
            } else if j == 23 {
            } else if j == 24 {
            } else if j == 25 {
            } else if j == 26 {
            } else if j == 27 {
            } else if j == 28 {
            } else if j == 29 {
            } else if j == 30 {
            } else if j == 31 {
            } else if j == 32 {
            } else if j == 33 {
            } else if j == 34 {
            } else if j == 35 {
            } else if j == 36 {
            }
        }
    }
}

/// Entries 160 to 175 of `ESP_IDF_ERROR_CODES` are known codes, each below the next.
proof fn lemma_table_indices_10(i: int)
    requires
        160 <= i < 176,
    ensures
        is_error_code(ESP_IDF_ERROR_CODES@[i]),
        ESP_IDF_ERROR_CODES@[i] < ESP_IDF_ERROR_CODES@[i + 1],
{
    if i == 160 {
        assert(ESP_IDF_ERROR_CODES@[i] == 0x700c);
        assert(ESP_IDF_ERROR_CODES@[i + 1] == 0x8001);
    } else if i == 161 {
        assert(ESP_IDF_ERROR_CODES@[i] == 0x8001);
        assert(ESP_IDF_ERROR_CODES@[i + 1] == 0x8002);
    } else if i == 162 {
        assert(ESP_IDF_ERROR_CODES@[i] == 0x8002);
        assert(ESP_IDF_ERROR_CODES@[i + 1] == 0x8003);
    } else if i == 163 {
        assert(ESP_IDF_ERROR_CODES@[i] == 0x8003);
        assert(ESP_IDF_ERROR_CODES@[i + 1] == 0x8004);
    } else if i == 164 {
        assert(ESP_IDF_ERROR_CODES@[i] == 0x8004);
        assert(ESP_IDF_ERROR_CODES@[i + 1] == 0x8005);
    } else if i == 165 {
        assert(ESP_IDF_ERROR_CODES@[i] == 0x8005);
        assert(ESP_IDF_ERROR_CODES@[i + 1] == 0x8006);
    } else if i == 166 {
        assert(ESP_IDF_ERROR_CODES@[i] == 0x8006);
        assert(ESP_IDF_ERROR_CODES@[i + 1] == 0x8007);
    } else if i == 167 {
        assert(ESP_IDF_ERROR_CODES@[i] == 0x8007);
        assert(ESP_IDF_ERROR_CODES@[i + 1] == 0x8008);
    } else if i == 168 {
        assert(ESP_IDF_ERROR_CODES@[i] == 0x8008);
        assert(ESP_IDF_ERROR_CODES@[i + 1] == 0x8009);
    } else if i == 169 {
        assert(ESP_IDF_ERROR_CODES@[i] == 0x8009);
        assert(ESP_IDF_ERROR_CODES@[i + 1] == 0x8010);
    } else if i == 170 {
        assert(ESP_IDF_ERROR_CODES@[i] == 0x8010);
        assert(ESP_IDF_ERROR_CODES@[i + 1] == 0x8011);
    } else if i == 171 {
        assert(ESP_IDF_ERROR_CODES@[i] == 0x8011);
        assert(ESP_IDF_ERROR_CODES@[i + 1] == 0x8012);
    } else if i == 172 {
        assert(ESP_IDF_ERROR_CODES@[i] == 0x8012);
        assert(ESP_IDF_ERROR_CODES@[i + 1] == 0x8013);
    } else if i == 173 {
        assert(ESP_IDF_ERROR_CODES@[i] == 0x8013);
        assert(ESP_IDF_ERROR_CODES@[i + 1] == 0x8014);
    } else if i == 174 {
        assert(ESP_IDF_ERROR_CODES@[i] == 0x8014);
        assert(ESP_IDF_ERROR_CODES@[i + 1] == 0x8015);
    } else if i == 175 {
        assert(ESP_IDF_ERROR_CODES@[i] == 0x8015);
        assert(ESP_IDF_ERROR_CODES@[i + 1] == 0x8016);
    }
}

/// The table facts for every code from `0x8016` to `0xb007`.
proof fn lemma_table_codes_11(code: i32)
    requires
        0x8016 <= code <= 0xb007,
    ensures
        table_facts(code),
{
    if code == 0x8016 {
        reveal_strlit("ESP_ERR_MBEDTLS_SSL_CONF_OWN_CERT_FAILED");
        reveal_strlit("[ESP_ERR_MBEDTLS_SSL_CONF_OWN_CERT_FAILED]: mbedtls api returned error");
        assert(spec_error_info(code).unwrap().subrange(0, spec_error_name(code).unwrap().len() + 4int)
            =~= seq!['['] + spec_error_name(code).unwrap() + seq![']', ':', ' ']);
        assert(ESP_IDF_ERROR_CODES@[176] == code);
        let name = spec_error_name(code).unwrap();
        assert(name.subrange(0, 4) =~= seq!['E', 'S', 'P', '_']);
        assert(name.subrange(0, 8) =~= seq!['E', 'S', 'P', '_', 'E', 'R', 'R', '_']);
        assert forall|j: int| 0 <= j < name.len() implies is_name_char(#[trigger] name[j]) by {
            if j == 0 {
            } else if j == 1 {
            } else if j == 2 {
            } else if j == 3 {
            } else if j == 4 {
            } else if j == 5 {
            } else if j == 6 {
            } else if j == 7 {
            } else if j == 8 {
            } else if j == 9 {
            } else if j == 10 {
            } else if j == 11 {
            } else if j == 12 {
            } else if j == 13 {
            } else if j == 14 {
            } else if j == 15 {
            } else if j == 16 {
            } else if j == 17 {
            } else if j == 18 {
            } else if j == 19 {
            } else if j == 20 {
            } else if j == 21 {
            } else if j == 22 {
            } else if j == 23 {
            } else if j == 24 {
            } else if j == 25 {
            } else if j == 26 {
            } else if j == 27 {
            } else if j == 28 {
            } else if j == 29 {
            } else if j == 30 {
            } else if j == 31 {
            } else if j == 32 {
            } else if j == 33 {
            } else if j == 34 {
            } else if j == 35 {
            } else if j == 36 {
            } else if j == 37 {
            } else if j == 38 {
            } else if j == 39 {
            }
        }
    } else if code == 0x8017 {
        reveal_strlit("ESP_ERR_MBEDTLS_SSL_SETUP_FAILED");
        reveal_strlit("[ESP_ERR_MBEDTLS_SSL_SETUP_FAILED]: mbedtls api returned error");
        assert(spec_error_info(code).unwrap().subrange(0, spec_error_name(code).unwrap().len() + 4int)
            =~= seq!['['] + spec_error_name(code).unwrap() + seq![']', ':', ' ']);
        assert(ESP_IDF_ERROR_CODES@[177] == code);
        let name = spec_error_name(code).unwrap();
        assert(name.subrange(0, 4) =~= seq!['E', 'S', 'P', '_']);
        assert(name.subrange(0, 8) =~= seq!['E', 'S', 'P', '_', 'E', 'R', 'R', '_']);
        assert forall|j: int| 0 <= j < name.len() implies is_name_char(#[trigger] name[j]) by {
            if j == 0 {
            } else if j == 1 {
            } else if j == 2 {
            } else if j == 3 {
            } else if j == 4 {
            } else if j == 5 {
            } else if j == 6 {
            } else if j == 7 {
            } else if j == 8 {
            } else if j == 9 {
            } else if j == 10 {
            } else if j == 11 {
            } else if j == 12 {
            } else if j == 13 {
            } else if j == 14 {
            } else if j == 15 {
            } else if j == 16 {
            } else if j == 17 {
            } else if j == 18 {
            } else if j == 19 {
            } else if j == 20 {
            } else if j == 21 {
            } else if j == 22 {
            } else if j == 23 {
            } else if j == 24 {
            } else if j == 25 {
            } else if j == 26 {
            } else if j == 27 {
            } else if j == 28 {
            } else if j == 29 {
            } else if j == 30 {
            } else if j == 31 {
            }
        }
    } else if code == 0x8018 {
        reveal_strlit("ESP_ERR_MBEDTLS_SSL_WRITE_FAILED");
        reveal_strlit("[ESP_ERR_MBEDTLS_SSL_WRITE_FAILED]: mbedtls api returned error");
        assert(spec_error_info(code).unwrap().subrange(0, spec_error_name(code).unwrap().len() + 4int)
            =~= seq!['['] + spec_error_name(code).unwrap() + seq![']', ':', ' ']);
        assert(ESP_IDF_ERROR_CODES@[178] == code);
        let name = spec_error_name(code).unwrap();
        assert(name.subrange(0, 4) =~= seq!['E', 'S', 'P', '_']);
        assert(name.subrange(0, 8) =~= seq!['E', 'S', 'P', '_', 'E', 'R', 'R', '_']);
        assert forall|j: int| 0 <= j < name.len() implies is_name_char(#[trigger] name[j]) by {
            if j == 0 {
            } else if j == 1 {
            } else if j == 2 {
            } else if j == 3 {
            } else if j == 4 {
            } else if j == 5 {
            } else if j == 6 {
            } else if j == 7 {
            } else if j == 8 {
            } else if j == 9 {
            } else if j == 10 {
            } else if j == 11 {
            } else if j == 12 {
            } else if j == 13 {
            } else if j == 14 {
            } else if j == 15 {
            } else if j == 16 {
            } else if j == 17 {
            } else if j == 18 {
            } else if j == 19 {
            } else if j == 20 {
            } else if j == 21 {
            } else if j == 22 {
            } else if j == 23 {
            } else if j == 24 {
            } else if j == 25 {
            } else if j == 26 {
            } else if j == 27 {
            } else if j == 28 {
            } else if j == 29 {
            } else if j == 30 {
            } else if j == 31 {
            }
        }
    } else if code == 0x8019 {
        reveal_strlit("ESP_ERR_MBEDTLS_PK_PARSE_KEY_FAILED");
        reveal_strlit("[ESP_ERR_MBEDTLS_PK_PARSE_KEY_FAILED]: mbedtls api returned failed");
        assert(spec_error_info(code).unwrap().subrange(0, spec_error_name(code).unwrap().len() + 4int)
            =~= seq!['['] + spec_error_name(code).unwrap() + seq![']', ':', ' ']);
        assert(ESP_IDF_ERROR_CODES@[179] == code);
        let name = spec_error_name(code).unwrap();
        assert(name.subrange(0, 4) =~= seq!['E', 'S', 'P', '_']);
        assert(name.subrange(0, 8) =~= seq!['E', 'S', 'P', '_', 'E', 'R', 'R', '_']);
        assert forall|j: int| 0 <= j < name.len() implies is_name_char(#[trigger] name[j]) by {
            if j == 0 {
            } else if j == 1 {
            } else if j == 2 {
            } else if j == 3 {
            } else if j == 4 {
            } else if j == 5 {
            } else if j == 6 {
            } else if j == 7 {
            } else if j == 8 {
            } else if j == 9 {
            } else if j == 10 {
            } else if j == 11 {
            } else if j == 12 {
            } else if j == 13 {
            } else if j == 14 {
            } else if j == 15 {
            } else if j == 16 {
            } else if j == 17 {
            } else if j == 18 {
            } else if j == 19 {
            } else if j == 20 {
            } else if j == 21 {
            } else if j == 22 {
            } else if j == 23 {
            } else if j == 24 {
            } else if j == 25 {
            } else if j == 26 {
            } else if j == 27 {
            } else if j == 28 {
            } else if j == 29 {
            } else if j == 30 {
            } else if j == 31 {
            } else if j == 32 {
            } else if j == 33 {
            } else if j == 34 {
            }
        }
    } else if code == 0x801a {
        reveal_strlit("ESP_ERR_MBEDTLS_SSL_HANDSHAKE_FAILED");
        reveal_strlit("[ESP_ERR_MBEDTLS_SSL_HANDSHAKE_FAILED]: mbedtls api returned failed");
        assert(spec_error_info(code).unwrap().subrange(0, spec_error_name(code).unwrap().len() + 4int)
            =~= seq!['['] + spec_error_name(code).unwrap() + seq![']', ':', ' ']);
        assert(ESP_IDF_ERROR_CODES@[180] == code);
        let name = spec_error_name(code).unwrap();
        assert(name.subrange(0, 4) =~= seq!['E', 'S', 'P', '_']);
        assert(name.subrange(0, 8) =~= seq!['E', 'S', 'P', '_', 'E', 'R', 'R', '_']);
        assert forall|j: int| 0 <= j < name.len() implies is_name_char(#[trigger] name[j]) by {
            if j == 0 {
            } else if j == 1 {
            } else if j == 2 {
            } else if j == 3 {
            } else if j == 4 {
            } else if j == 5 {
            } else if j == 6 {
            } else if j == 7 {
            } else if j == 8 {
            } else if j == 9 {
            } else if j == 10 {
            } else if j == 11 {
            } else if j == 12 {
            } else if j == 13 {
            } else if j == 14 {
            } else if j == 15 {
            } else if j == 16 {
            } else if j == 17 {
            } else if j == 18 {
            } else if j == 19 {
            } else if j == 20 {
            } else if j == 21 {
            } else if j == 22 {
            } else if j == 23 {
            } else if j == 24 {
            } else if j == 25 {
            } else if j == 26 {
            } else if j == 27 {
            } else if j == 28 {
            } else if j == 29 {
            } else if j == 30 {
            } else if j == 31 {
            } else if j == 32 {
            } else if j == 33 {
            } else if j == 34 {
            } else if j == 35 {
            }
        }
    } else if code == 0x801b {
        reveal_strlit("ESP_ERR_MBEDTLS_SSL_CONF_PSK_FAILED");
        reveal_strlit("[ESP_ERR_MBEDTLS_SSL_CONF_PSK_FAILED]: mbedtls api returned failed");
        assert(spec_error_info(code).unwrap().subrange(0, spec_error_name(code).unwrap().len() + 4int)
            =~= seq!['['] + spec_error_name(code).unwrap() + seq![']', ':', ' ']);
        assert(ESP_IDF_ERROR_CODES@[181] == code);
        let name = spec_error_name(code).unwrap();
        assert(name.subrange(0, 4) =~= seq!['E', 'S', 'P', '_']);
        assert(name.subrange(0, 8) =~= seq!['E', 'S', 'P', '_', 'E', 'R', 'R', '_']);
        assert forall|j: int| 0 <= j < name.len() implies is_name_char(#[trigger] name[j]) by {
            if j == 0 {
            } else if j == 1 {
            } else if j == 2 {
            } else if j == 3 {
            } else if j == 4 {
            } else if j == 5 {
            } else if j == 6 {
            } else if j == 7 {
            } else if j == 8 {
            } else if j == 9 {
            } else if j == 10 {
            } else if j == 11 {
            } else if j == 12 {
            } else if j == 13 {
            } else if j == 14 {
            } else if j == 15 {
            } else if j == 16 {
            } else if j == 17 {
            } else if j == 18 {
            } else if j == 19 {
            } else if j == 20 {
            } else if j == 21 {
            } else if j == 22 {
            } else if j == 23 {
            } else if j == 24 {
            } else if j == 25 {
            } else if j == 26 {
            } else if j == 27 {
            } else if j == 28 {
            } else if j == 29 {
            } else if j == 30 {
            } else if j == 31 {
            } else if j == 32 {
            } else if j == 33 {
            } else if j == 34 {
            }
        }
    } else if code == 0x801c {
        reveal_strlit("ESP_ERR_MBEDTLS_SSL_TICKET_SETUP_FAILED");
        reveal_strlit("[ESP_ERR_MBEDTLS_SSL_TICKET_SETUP_FAILED]: mbedtls api returned failed");
        assert(spec_error_info(code).unwrap().subrange(0, spec_error_name(code).unwrap().len() + 4int)
            =~= seq!['['] + spec_error_name(code).unwrap() + seq![']', ':', ' ']);
        assert(ESP_IDF_ERROR_CODES@[182] == code);
        let name = spec_error_name(code).unwrap();
        assert(name.subrange(0, 4) =~= seq!['E', 'S', 'P', '_']);
        assert(name.subrange(0, 8) =~= seq!['E', 'S', 'P', '_', 'E', 'R', 'R', '_']);
        assert forall|j: int| 0 <= j < name.len() implies is_name_char(#[trigger] name[j]) by {
            if j == 0 {
            } else if j == 1 {
            } else if j == 2 {
            } else if j == 3 {
            } else if j == 4 {
            } else if j == 5 {
            } else if j == 6 {
            } else if j == 7 {
            } else if j == 8 {
            } else if j == 9 {
            } else if j == 10 {
            } else if j == 11 {
            } else if j == 12 {
            } else if j == 13 {
            } else if j == 14 {
            } else if j == 15 {
            } else if j == 16 {
            } else if j == 17 {
            } else if j == 18 {
            } else if j == 19 {
            } else if j == 20 {
            } else if j == 21 {
            } else if j == 22 {
            } else if j == 23 {
            } else if j == 24 {
            } else if j == 25 {
            } else if j == 26 {
            } else if j == 27 {
            } else if j == 28 {
            } else if j == 29 {
            } else if j == 30 {
            } else if j == 31 {
            } else if j == 32 {
            } else if j == 33 {
            } else if j == 34 {
            } else if j == 35 {
            } else if j == 36 {
            } else if j == 37 {
            } else if j == 38 {
            }
        }
    } else if code == 0x801d {
        reveal_strlit("ESP_ERR_MBEDTLS_SSL_READ_FAILED");
        reveal_strlit("[ESP_ERR_MBEDTLS_SSL_READ_FAILED]: mbedtls api returned failed");
        assert(spec_error_info(code).unwrap().subrange(0, spec_error_name(code).unwrap().len() + 4int)
            =~= seq!['['] + spec_error_name(code).unwrap() + seq![']', ':', ' ']);
        assert(ESP_IDF_ERROR_CODES@[183] == code);
        let name = spec_error_name(code).unwrap();
        assert(name.subrange(0, 4) =~= seq!['E', 'S', 'P', '_']);
        assert(name.subrange(0, 8) =~= seq!['E', 'S', 'P', '_', 'E', 'R', 'R', '_']);
        assert forall|j: int| 0 <= j < name.len() implies is_name_char(#[trigger] name[j]) by {
            if j == 0 {
            } else if j == 1 {
            } else if j == 2 {
            } else if j == 3 {
            } else if j == 4 {
            } else if j == 5 {
            } else if j == 6 {
            } else if j == 7 {
            } else if j == 8 {
            } else if j == 9 {
            } else if j == 10 {
            } else if j == 11 {
            } else if j == 12 {
            } else if j == 13 {
            } else if j == 14 {
            } else if j == 15 {
            } else if j == 16 {
            } else if j == 17 {
            } else if j == 18 {
            } else if j == 19 {
            } else if j == 20 {
            } else if j == 21 {
            } else if j == 22 {
            } else if j == 23 {
            } else if j == 24 {
            } else if j == 25 {
            } else if j == 26 {
            } else if j == 27 {
            } else if j == 28 {
            } else if j == 29 {
            } else if j == 30 {
            }
        }
    } else if code == 0x9001 {
        reveal_strlit("ESP_ERR_HTTPS_OTA_IN_PROGRESS");
        reveal_strlit("[ESP_ERR_HTTPS_OTA_IN_PROGRESS]: No further error description");
        assert(spec_error_info(code).unwrap().subrange(0, spec_error_name(code).unwrap().len() + 4int)
            =~= seq!['['] + spec_error_name(code).unwrap() + seq![']', ':', ' ']);
        assert(ESP_IDF_ERROR_CODES@[184] == code);
        let name = spec_error_name(code).unwrap();
        assert(name.subrange(0, 4) =~= seq!['E', 'S', 'P', '_']);
        assert(name.subrange(0, 8) =~= seq!['E', 'S', 'P', '_', 'E', 'R', 'R', '_']);
        assert forall|j: int| 0 <= j < name.len() implies is_name_char(#[trigger] name[j]) by {
            if j == 0 {
            } else if j == 1 {
            } else if j == 2 {
            } else if j == 3 {
            } else if j == 4 {
            } else if j == 5 {
            } else if j == 6 {
            } else if j == 7 {
            } else if j == 8 {
            } else if j == 9 {
            } else if j == 10 {
            } else if j == 11 {
            } else if j == 12 {
            } else if j == 13 {
            } else if j == 14 {
            } else if j == 15 {
            } else if j == 16 {
            } else if j == 17 {
            } else if j == 18 {
            } else if j == 19 {
            } else if j == 20 {
            } else if j == 21 {
            } else if j == 22 {
            } else if j == 23 {
            } else if j == 24 {
            } else if j == 25 {
            } else if j == 26 {
            } else if j == 27 {
            } else if j == 28 {
            }
        }
    } else if code == 0xb001 {
        reveal_strlit("ESP_ERR_HTTPD_HANDLERS_FULL");
        reveal_strlit("[ESP_ERR_HTTPD_HANDLERS_FULL]: All slots for registering URI handlers have been consumed");
        assert(spec_error_info(code).unwrap().subrange(0, spec_error_name(code).unwrap().len() + 4int)
            =~= seq!['['] + spec_error_name(code).unwrap() + seq![']', ':', ' ']);
        assert(ESP_IDF_ERROR_CODES@[185] == code);
        let name = spec_error_name(code).unwrap();
        assert(name.subrange(0, 4) =~= seq!['E', 'S', 'P', '_']);
        assert(name.subrange(0, 8) =~= seq!['E', 'S', 'P', '_', 'E', 'R', 'R', '_']);
        assert forall|j: int| 0 <= j < name.len() implies is_name_char(#[trigger] name[j]) by {
            if j == 0 {
            } else if j == 1 {
            } else if j == 2 {
            } else if j == 3 {
            } else if j == 4 {
            } else if j == 5 {
            } else if j == 6 {
            } else if j == 7 {
            } else if j == 8 {
            } else if j == 9 {
            } else if j == 10 {
            } else if j == 11 {
            } else if j == 12 {
            } else if j == 13 {
            } else if j == 14 {
            } else if j == 15 {
            } else if j == 16 {
            } else if j == 17 {
            } else if j == 18 {
            } else if j == 19 {
            } else if j == 20 {
            } else if j == 21 {
            } else if j == 22 {
            } else if j == 23 {
            } else if j == 24 {
            } else if j == 25 {
            } else if j == 26 {
            }
        }
    } else if code == 0xb002 {
        reveal_strlit("ESP_ERR_HTTPD_HANDLER_EXISTS");
        reveal_strlit("[ESP_ERR_HTTPD_HANDLER_EXISTS]: URI handler with same method and target URI already registered");
        assert(spec_error_info(code).unwrap().subrange(0, spec_error_name(code).unwrap().len() + 4int)
            =~= seq!['['] + spec_error_name(code).unwrap() + seq![']', ':', ' ']);
        assert(ESP_IDF_ERROR_CODES@[186] == code);
        let name = spec_error_name(code).unwrap();
        assert(name.subrange(0, 4) =~= seq!['E', 'S', 'P', '_']);
        assert(name.subrange(0, 8) =~= seq!['E', 'S', 'P', '_', 'E', 'R', 'R', '_']);
        assert forall|j: int| 0 <= j < name.len() implies is_name_char(#[trigger] name[j]) by {
            if j == 0 {
            } else if j == 1 {
            } else if j == 2 {
            } else if j == 3 {
            } else if j == 4 {
            } else if j == 5 {
            } else if j == 6 {
            } else if j == 7 {
            } else if j == 8 {
            } else if j == 9 {
            } else if j == 10 {
            } else if j == 11 {
            } else if j == 12 {
            } else if j == 13 {
            } else if j == 14 {
            } else if j == 15 {
            } else if j == 16 {
            } else if j == 17 {
            } else if j == 18 {
            } else if j == 19 {
            } else if j == 20 {
            } else if j == 21 {
            } else if j == 22 {
            } else if j == 23 {
            } else if j == 24 {
            } else if j == 25 {
            } else if j == 26 {
            } else if j == 27 {
            }
        }
    } else if code == 0xb003 {
        reveal_strlit("ESP_ERR_HTTPD_INVALID_REQ");
        reveal_strlit("[ESP_ERR_HTTPD_INVALID_REQ]: Invalid request pointer");
        assert(spec_error_info(code).unwrap().subrange(0, spec_error_name(code).unwrap().len() + 4int)
            =~= seq!['['] + spec_error_name(code).unwrap() + seq![']', ':', ' ']);
        assert(ESP_IDF_ERROR_CODES@[187] == code);
        let name = spec_error_name(code).unwrap();
        assert(name.subrange(0, 4) =~= seq!['E', 'S', 'P', '_']);
        assert(name.subrange(0, 8) =~= seq!['E', 'S', 'P', '_', 'E', 'R', 'R', '_']);
        assert forall|j: int| 0 <= j < name.len() implies is_name_char(#[trigger] name[j]) by {
            if j == 0 {
            } else if j == 1 {
            } else if j == 2 {
            } else if j == 3 {
            } else if j == 4 {
            } else if j == 5 {
            } else if j == 6 {
            } else if j == 7 {
            } else if j == 8 {
            } else if j == 9 {
            } else if j == 10 {
            } else if j == 11 {
            } else if j == 12 {
            } else if j == 13 {
            } else if j == 14 {
            } else if j == 15 {
            } else if j == 16 {
            } else if j == 17 {
            } else if j == 18 {
            } else if j == 19 {
            } else if j == 20 {
            } else if j == 21 {
            } else if j == 22 {
            } else if j == 23 {
            } else if j == 24 {
            }
        }
    } else if code == 0xb004 {
        reveal_strlit("ESP_ERR_HTTPD_RESULT_TRUNC");
        reveal_strlit("[ESP_ERR_HTTPD_RESULT_TRUNC]: Result string truncated");
        assert(spec_error_info(code).unwrap().subrange(0, spec_error_name(code).unwrap().len() + 4int)
            =~= seq!['['] + spec_error_name(code).unwrap() + seq![']', ':', ' ']);
        assert(ESP_IDF_ERROR_CODES@[188] == code);
        let name = spec_error_name(code).unwrap();
        assert(name.subrange(0, 4) =~= seq!['E', 'S', 'P', '_']);
        assert(name.subrange(0, 8) =~= seq!['E', 'S', 'P', '_', 'E', 'R', 'R', '_']);
        assert forall|j: int| 0 <= j < name.len() implies is_name_char(#[trigger] name[j]) by {
            if j == 0 {
            } else if j == 1 {
            } else if j == 2 {
            } else if j == 3 {
            } else if j == 4 {
            } else if j == 5 {
            } else if j == 6 {
            } else if j == 7 {
            } else if j == 8 {
            } else if j == 9 {
            } else if j == 10 {
            } else if j == 11 {
            } else if j == 12 {
            } else if j == 13 {
            } else if j == 14 {
            } else if j == 15 {
            } else if j == 16 {
            } else if j == 17 {
            } else if j == 18 {
            } else if j == 19 {
            } else if j == 20 {
            } else if j == 21 {
            } else if j == 22 {
            } else if j == 23 {
            } else if j == 24 {
            } else if j == 25 {
            }
        }
    } else if code == 0xb005 {
        reveal_strlit("ESP_ERR_HTTPD_RESP_HDR");
        reveal_strlit("[ESP_ERR_HTTPD_RESP_HDR]: Response header field larger than supported");
        assert(spec_error_info(code).unwrap().subrange(0, spec_error_name(code).unwrap().len() + 4int)
            =~= seq!['['] + spec_error_name(code).unwrap() + seq![']', ':', ' ']);
        assert(ESP_IDF_ERROR_CODES@[189] == code);
        let name = spec_error_name(code).unwrap();
        assert(name.subrange(0, 4) =~= seq!['E', 'S', 'P', '_']);
        assert(name.subrange(0, 8) =~= seq!['E', 'S', 'P', '_', 'E', 'R', 'R', '_']);
        assert forall|j: int| 0 <= j < name.len() implies is_name_char(#[trigger] name[j]) by {
            if j == 0 {
            } else if j == 1 {
            } else if j == 2 {
            } else if j == 3 {
            } else if j == 4 {
            } else if j == 5 {
            } else if j == 6 {
            } else if j == 7 {
            } else if j == 8 {
            } else if j == 9 {
            } else if j == 10 {
            } else if j == 11 {
            } else if j == 12 {
            } else if j == 13 {
            } else if j == 14 {
            } else if j == 15 {
            } else if j == 16 {
            } else if j == 17 {
            } else if j == 18 {
            } else if j == 19 {
            } else if j == 20 {
            } else if j == 21 {
            }
        }
    } else if code == 0xb006 {
        reveal_strlit("ESP_ERR_HTTPD_RESP_SEND");
        reveal_strlit("[ESP_ERR_HTTPD_RESP_SEND]: Error occurred while sending response packet");
        assert(spec_error_info(code).unwrap().subrange(0, spec_error_name(code).unwrap().len() + 4int)
            =~= seq!['['] + spec_error_name(code).unwrap() + seq![']', ':', ' ']);
        assert(ESP_IDF_ERROR_CODES@[190] == code);
        let name = spec_error_name(code).unwrap();
        assert(name.subrange(0, 4) =~= seq!['E', 'S', 'P', '_']);
        assert(name.subrange(0, 8) =~= seq!['E', 'S', 'P', '_', 'E', 'R', 'R', '_']);
        assert forall|j: int| 0 <= j < name.len() implies is_name_char(#[trigger] name[j]) by {
            if j == 0 {
            } else if j == 1 {
            } else if j == 2 {
            } else if j == 3 {
            } else if j == 4 {
            } else if j == 5 {
            } else if j == 6 {
            } else if j == 7 {
            } else if j == 8 {
            } else if j == 9 {
            } else if j == 10 {
            } else if j == 11 {
            } else if j == 12 {
            } else if j == 13 {
            } else if j == 14 {
            } else if j == 15 {
            } else if j == 16 {
            } else if j == 17 {
            } else if j == 18 {
            } else if j == 19 {
            } else if j == 20 {
            } else if j == 21 {
            } else if j == 22 {
            }
        }
    } else if code == 0xb007 {
        reveal_strlit("ESP_ERR_HTTPD_ALLOC_MEM");
        reveal_strlit("[ESP_ERR_HTTPD_ALLOC_MEM]: Failed to dynamically allocate memory for resource");
        assert(spec_error_info(code).unwrap().subrange(0, spec_error_name(code).unwrap().len() + 4int)
            =~= seq!['['] + spec_error_name(code).unwrap() + seq![']', ':', ' ']);
        assert(ESP_IDF_ERROR_CODES@[191] == code);
        let name = spec_error_name(code).unwrap();
        assert(name.subrange(0, 4) =~= seq!['E', 'S', 'P', '_']);
        assert(name.subrange(0, 8) =~= seq!['E', 'S', 'P', '_', 'E', 'R', 'R', '_']);
        assert forall|j: int| 0 <= j < name.len() implies is_name_char(#[trigger] name[j]) by {
            if j == 0 {
            } else if j == 1 {
            } else if j == 2 {
            } else if j == 3 {
            } else if j == 4 {
            } else if j == 5 {
            } else if j == 6 {
            } else if j == 7 {
            } else if j == 8 {
            } else if j == 9 {
            } else if j == 10 {
            } else if j == 11 {
            } else if j == 12 {
            } else if j == 13 {
            } else if j == 14 {
            } else if j == 15 {
            } else if j == 16 {
            } else if j == 17 {
            } else if j == 18 {
            } else if j == 19 {
            } else if j == 20 {
            } else if j == 21 {
            } else if j == 22 {
            }
        }
    }
}

/// Entries 176 to 191 of `ESP_IDF_ERROR_CODES` are known codes, each below the next.
proof fn lemma_table_indices_11(i: int)
    requires
        176 <= i < 192,
    ensures
        is_error_code(ESP_IDF_ERROR_CODES@[i]),
        ESP_IDF_ERROR_CODES@[i] < ESP_IDF_ERROR_CODES@[i + 1],
{
    if i == 176 {
        assert(ESP_IDF_ERROR_CODES@[i] == 0x8016);
        assert(ESP_IDF_ERROR_CODES@[i + 1] == 0x8017);
    } else if i == 177 {
        assert(ESP_IDF_ERROR_CODES@[i] == 0x8017);
        assert(ESP_IDF_ERROR_CODES@[i + 1] == 0x8018);
    } else if i == 178 {
        assert(ESP_IDF_ERROR_CODES@[i] == 0x8018);
        assert(ESP_IDF_ERROR_CODES@[i + 1] == 0x8019);
    } else if i == 179 {
        assert(ESP_IDF_ERROR_CODES@[i] == 0x8019);
        assert(ESP_IDF_ERROR_CODES@[i + 1] == 0x801a);
    } else if i == 180 {
        assert(ESP_IDF_ERROR_CODES@[i] == 0x801a);
        assert(ESP_IDF_ERROR_CODES@[i + 1] == 0x801b);
    } else if i == 181 {
        assert(ESP_IDF_ERROR_CODES@[i] == 0x801b);
        assert(ESP_IDF_ERROR_CODES@[i + 1] == 0x801c);
    } else if i == 182 {
        assert(ESP_IDF_ERROR_CODES@[i] == 0x801c);
        assert(ESP_IDF_ERROR_CODES@[i + 1] == 0x801d);
    } else if i == 183 {
        assert(ESP_IDF_ERROR_CODES@[i] == 0x801d);
        assert(ESP_IDF_ERROR_CODES@[i + 1] == 0x9001);
    } else if i == 184 {
        assert(ESP_IDF_ERROR_CODES@[i] == 0x9001);
        assert(ESP_IDF_ERROR_CODES@[i + 1] == 0xb001);
    } else if i == 185 {
        assert(ESP_IDF_ERROR_CODES@[i] == 0xb001);
        assert(ESP_IDF_ERROR_CODES@[i + 1] == 0xb002);
    } else if i == 186 {
        assert(ESP_IDF_ERROR_CODES@[i] == 0xb002);
        assert(ESP_IDF_ERROR_CODES@[i + 1] == 0xb003);
    } else if i == 187 {
        assert(ESP_IDF_ERROR_CODES@[i] == 0xb003);
        assert(ESP_IDF_ERROR_CODES@[i + 1] == 0xb004);
    } else if i == 188 {
        assert(ESP_IDF_ERROR_CODES@[i] == 0xb004);
        assert(ESP_IDF_ERROR_CODES@[i + 1] == 0xb005);
    } else if i == 189 {
        assert(ESP_IDF_ERROR_CODES@[i] == 0xb005);
        assert(ESP_IDF_ERROR_CODES@[i + 1] == 0xb006);
    } else if i == 190 {
        assert(ESP_IDF_ERROR_CODES@[i] == 0xb006);
        assert(ESP_IDF_ERROR_CODES@[i + 1] == 0xb007);
    } else if i == 191 {
        assert(ESP_IDF_ERROR_CODES@[i] == 0xb007);
        assert(ESP_IDF_ERROR_CODES@[i + 1] == 0xb008);
    }
}

/// The table facts for every code from `0xb008` to `0xe003`.
proof fn lemma_table_codes_12(code: i32)
    requires
        0xb008 <= code <= 0xe003,
    ensures
        table_facts(code),
{
    if code == 0xb008 {
        reveal_strlit("ESP_ERR_HTTPD_TASK");
        reveal_strlit("[ESP_ERR_HTTPD_TASK]: Failed to launch server task/thread");
        assert(spec_error_info(code).unwrap().subrange(0, spec_error_name(code).unwrap().len() + 4int)
            =~= seq!['['] + spec_error_name(code).unwrap() + seq![']', ':', ' ']);
        assert(ESP_IDF_ERROR_CODES@[192] == code);
        let name = spec_error_name(code).unwrap();
        assert(name.subrange(0, 4) =~= seq!['E', 'S', 'P', '_']);
        assert(name.subrange(0, 8) =~= seq!['E', 'S', 'P', '_', 'E', 'R', 'R', '_']);
        assert forall|j: int| 0 <= j < name.len() implies is_name_char(#[trigger] name[j]) by {
            if j == 0 {
            } else if j == 1 {
            } else if j == 2 {
            } else if j == 3 {
            } else if j == 4 {
            } else if j == 5 {
            } else if j == 6 {
            } else if j == 7 {
            } else if j == 8 {
            } else if j == 9 {
            } else if j == 10 {
            } else if j == 11 {
            } else if j == 12 {
            } else if j == 13 {
            } else if j == 14 {
            } else if j == 15 {
            } else if j == 16 {
            } else if j == 17 {
            }
        }
    } else if code == 0xc001 {
        reveal_strlit("ESP_ERR_HW_CRYPTO_DS_HMAC_FAIL");
        reveal_strlit("[ESP_ERR_HW_CRYPTO_DS_HMAC_FAIL]: HMAC peripheral problem");
        assert(spec_error_info(code).unwrap().subrange(0, spec_error_name(code).unwrap().len() + 4int)
            =~= seq!['['] + spec_error_name(code).unwrap() + seq![']', ':', ' ']);
        assert(ESP_IDF_ERROR_CODES@[193] == code);
        let name = spec_error_name(code).unwrap();
        assert(name.subrange(0, 4) =~= seq!['E', 'S', 'P', '_']);
        assert(name.subrange(0, 8) =~= seq!['E', 'S', 'P', '_', 'E', 'R', 'R', '_']);
        assert forall|j: int| 0 <= j < name.len() implies is_name_char(#[trigger] name[j]) by {
            if j == 0 {
            } else if j == 1 {
            } else if j == 2 {
            } else if j == 3 {
            } else if j == 4 {
            } else if j == 5 {
            } else if j == 6 {
            } else if j == 7 {
            } else if j == 8 {
            } else if j == 9 {
            } else if j == 10 {
            } else if j == 11 {
            } else if j == 12 {
            } else if j == 13 {
            } else if j == 14 {
            } else if j == 15 {
            } else if j == 16 {
            } else if j == 17 {
            } else if j == 18 {
            } else if j == 19 {
            } else if j == 20 {
            } else if j == 21 {
            } else if j == 22 {
            } else if j == 23 {
            } else if j == 24 {
            } else if j == 25 {
            } else if j == 26 {
            } else if j == 27 {
            } else if j == 28 {
            } else if j == 29 {
            }
        }
    } else if code == 0xc002 {
        reveal_strlit("ESP_ERR_HW_CRYPTO_DS_INVALID_KEY");
        reveal_strlit("[ESP_ERR_HW_CRYPTO_DS_INVALID_KEY]: No further error description");
        assert(spec_error_info(code).unwrap().subrange(0, spec_error_name(code).unwrap().len() + 4int)
            =~= seq!['['] + spec_error_name(code).unwrap() + seq![']', ':', ' ']);
        assert(ESP_IDF_ERROR_CODES@[194] == code);
        let name = spec_error_name(code).unwrap();
        assert(name.subrange(0, 4) =~= seq!['E', 'S', 'P', '_']);
        assert(name.subrange(0, 8) =~= seq!['E', 'S', 'P', '_', 'E', 'R', 'R', '_']);
        assert forall|j: int| 0 <= j < name.len() implies is_name_char(#[trigger] name[j]) by {
            if j == 0 {
            } else if j == 1 {
            } else if j == 2 {
            } else if j == 3 {
            } else if j == 4 {
            } else if j == 5 {
            } else if j == 6 {
            } else if j == 7 {
            } else if j == 8 {
            } else if j == 9 {
            } else if j == 10 {
            } else if j == 11 {
            } else if j == 12 {
            } else if j == 13 {
            } else if j == 14 {
            } else if j == 15 {
            } else if j == 16 {
            } else if j == 17 {
            } else if j == 18 {
            } else if j == 19 {
            } else if j == 20 {
            } else if j == 21 {
            } else if j == 22 {
            } else if j == 23 {
            } else if j == 24 {
            } else if j == 25 {
            } else if j == 26 {
            } else if j == 27 {
            } else if j == 28 {
            } else if j == 29 {
            } else if j == 30 {
            } else if j == 31 {
            }
        }
    } else if code == 0xc004 {
        reveal_strlit("ESP_ERR_HW_CRYPTO_DS_INVALID_DIGEST");
        reveal_strlit("[ESP_ERR_HW_CRYPTO_DS_INVALID_DIGEST]: No further error description");
        assert(spec_error_info(code).unwrap().subrange(0, spec_error_name(code).unwrap().len() + 4int)
            =~= seq!['['] + spec_error_name(code).unwrap() + seq![']', ':', ' ']);
        assert(ESP_IDF_ERROR_CODES@[195] == code);
        let name = spec_error_name(code).unwrap();
        assert(name.subrange(0, 4) =~= seq!['E', 'S', 'P', '_']);
        assert(name.subrange(0, 8) =~= seq!['E', 'S', 'P', '_', 'E', 'R', 'R', '_']);
        assert forall|j: int| 0 <= j < name.len() implies is_name_char(#[trigger] name[j]) by {
            if j == 0 {
            } else if j == 1 {
            } else if j == 2 {
            } else if j == 3 {
            } else if j == 4 {
            } else if j == 5 {
            } else if j == 6 {
            } else if j == 7 {
            } else if j == 8 {
            } else if j == 9 {
            } else if j == 10 {
            } else if j == 11 {
            } else if j == 12 {
            } else if j == 13 {
            } else if j == 14 {
            } else if j == 15 {
            } else if j == 16 {
            } else if j == 17 {
            } else if j == 18 {
            } else if j == 19 {
            } else if j == 20 {
            } else if j == 21 {
            } else if j == 22 {
            } else if j == 23 {
            } else if j == 24 {
            } else if j == 25 {
            } else if j == 26 {
            } else if j == 27 {
            } else if j == 28 {
            } else if j == 29 {
            } else if j == 30 {
            } else if j == 31 {
            } else if j == 32 {
            } else if j == 33 {
            } else if j == 34 {
            }
        }
    } else if code == 0xc005 {
        reveal_strlit("ESP_ERR_HW_CRYPTO_DS_INVALID_PADDING");
        reveal_strlit("[ESP_ERR_HW_CRYPTO_DS_INVALID_PADDING]: No further error description");
        assert(spec_error_info(code).unwrap().subrange(0, spec_error_name(code).unwrap().len() + 4int)
            =~= seq!['['] + spec_error_name(code).unwrap() + seq![']', ':', ' ']);
        assert(ESP_IDF_ERROR_CODES@[196] == code);
        let name = spec_error_name(code).unwrap();
        assert(name.subrange(0, 4) =~= seq!['E', 'S', 'P', '_']);
        assert(name.subrange(0, 8) =~= seq!['E', 'S', 'P', '_', 'E', 'R', 'R', '_']);
        assert forall|j: int| 0 <= j < name.len() implies is_name_char(#[trigger] name[j]) by {
            if j == 0 {
            } else if j == 1 {
            } else if j == 2 {
            } else if j == 3 {
            } else if j == 4 {
            } else if j == 5 {
            } else if j == 6 {
            } else if j == 7 {
            } else if j == 8 {
            } else if j == 9 {
            } else if j == 10 {
            } else if j == 11 {
            } else if j == 12 {
            } else if j == 13 {
            } else if j == 14 {
            } else if j == 15 {
            } else if j == 16 {
            } else if j == 17 {
            } else if j == 18 {
            } else if j == 19 {
            } else if j == 20 {
            } else if j == 21 {
            } else if j == 22 {
            } else if j == 23 {
            } else if j == 24 {
            } else if j == 25 {
            } else if j == 26 {
            } else if j == 27 {
            } else if j == 28 {
            } else if j == 29 {
            } else if j == 30 {
            } else if j == 31 {
            } else if j == 32 {
            } else if j == 33 {
            } else if j == 34 {
            } else if j == 35 {
            }
        }
    } else if code == 0xd001 {
        reveal_strlit("ESP_ERR_MEMPROT_MEMORY_TYPE_INVALID");
        reveal_strlit("[ESP_ERR_MEMPROT_MEMORY_TYPE_INVALID]: No further error description");
        assert(spec_error_info(code).unwrap().subrange(0, spec_error_name(code).unwrap().len() + 4int)
            =~= seq!['['] + spec_error_name(code).unwrap() + seq![']', ':', ' ']);
        assert(ESP_IDF_ERROR_CODES@[197] == code);
        let name = spec_error_name(code).unwrap();
        assert(name.subrange(0, 4) =~= seq!['E', 'S', 'P', '_']);
        assert(name.subrange(0, 8) =~= seq!['E', 'S', 'P', '_', 'E', 'R', 'R', '_']);
        assert forall|j: int| 0 <= j < name.len() implies is_name_char(#[trigger] name[j]) by {
            if j == 0 {
            } else if j == 1 {
            } else if j == 2 {
            } else if j == 3 {
            } else if j == 4 {
            } else if j == 5 {
            } else if j == 6 {
            } else if j == 7 {
            } else if j == 8 {
            } else if j == 9 {
            } else if j == 10 {
            } else if j == 11 {
            } else if j == 12 {
            } else if j == 13 {
            } else if j == 14 {
            } else if j == 15 {
            } else if j == 16 {
            } else if j == 17 {
            } else if j == 18 {
            } else if j == 19 {
            } else if j == 20 {
            } else if j == 21 {
            } else if j == 22 {
            } else if j == 23 {
            } else if j == 24 {
            } else if j == 25 {
            } else if j == 26 {
            } else if j == 27 {
            } else if j == 28 {
            } else if j == 29 {
            } else if j == 30 {
            } else if j == 31 {
            } else if j == 32 {
            } else if j == 33 {
            } else if j == 34 {
            }
        }
    } else if code == 0xd002 {
        reveal_strlit("ESP_ERR_MEMPROT_SPLIT_ADDR_INVALID");
        reveal_strlit("[ESP_ERR_MEMPROT_SPLIT_ADDR_INVALID]: No further error description");
        assert(spec_error_info(code).unwrap().subrange(0, spec_error_name(code).unwrap().len() + 4int)
            =~= seq!['['] + spec_error_name(code).unwrap() + seq![']', ':', ' ']);
        assert(ESP_IDF_ERROR_CODES@[198] == code);
        let name = spec_error_name(code).unwrap();
        assert(name.subrange(0, 4) =~= seq!['E', 'S', 'P', '_']);
        assert(name.subrange(0, 8) =~= seq!['E', 'S', 'P', '_', 'E', 'R', 'R', '_']);
        assert forall|j: int| 0 <= j < name.len() implies is_name_char(#[trigger] name[j]) by {
            if j == 0 {
            } else if j == 1 {
            } else if j == 2 {
            } else if j == 3 {
            } else if j == 4 {
            } else if j == 5 {
            } else if j == 6 {
            } else if j == 7 {
            } else if j == 8 {
            } else if j == 9 {
            } else if j == 10 {
            } else if j == 11 {
            } else if j == 12 {
            } else if j == 13 {
            } else if j == 14 {
            } else if j == 15 {
            } else if j == 16 {
            } else if j == 17 {
            } else if j == 18 {
            } else if j == 19 {
            } else if j == 20 {
            } else if j == 21 {
            } else if j == 22 {
            } else if j == 23 {
            } else if j == 24 {
            } else if j == 25 {
            } else if j == 26 {
            } else if j == 27 {
            } else if j == 28 {
            } else if j == 29 {
            } else if j == 30 {
            } else if j == 31 {
            } else if j == 32 {
            } else if j == 33 {
            }
        }
    } else if code == 0xd003 {
        reveal_strlit("ESP_ERR_MEMPROT_SPLIT_ADDR_OUT_OF_RANGE");
        reveal_strlit("[ESP_ERR_MEMPROT_SPLIT_ADDR_OUT_OF_RANGE]: No further error description");
        assert(spec_error_info(code).unwrap().subrange(0, spec_error_name(code).unwrap().len() + 4int)
            =~= seq!['['] + spec_error_name(code).unwrap() + seq![']', ':', ' ']);
        assert(ESP_IDF_ERROR_CODES@[199] == code);
        let name = spec_error_name(code).unwrap();
        assert(name.subrange(0, 4) =~= seq!['E', 'S', 'P', '_']);
        assert(name.subrange(0, 8) =~= seq!['E', 'S', 'P', '_', 'E', 'R', 'R', '_']);
        assert forall|j: int| 0 <= j < name.len() implies is_name_char(#[trigger] name[j]) by {
            if j == 0 {
            } else if j == 1 {
            } else if j == 2 {
            } else if j == 3 {
            } else if j == 4 {
            } else if j == 5 {
            } else if j == 6 {
            } else if j == 7 {
            } else if j == 8 {
            } else if j == 9 {
            } else if j == 10 {
            } else if j == 11 {
            } else if j == 12 {
            } else if j == 13 {
            } else if j == 14 {
            } else if j == 15 {
            } else if j == 16 {
            } else if j == 17 {
            } else if j == 18 {
            } else if j == 19 {
            } else if j == 20 {
            } else if j == 21 {
            } else if j == 22 {
            } else if j == 23 {
            } else if j == 24 {
            } else if j == 25 {
            } else if j == 26 {
            } else if j == 27 {
            } else if j == 28 {
            } else if j == 29 {
            } else if j == 30 {
            } else if j == 31 {
            } else if j == 32 {
            } else if j == 33 {
            } else if j == 34 {
            } else if j == 35 {
            } else if j == 36 {
            } else if j == 37 {
            } else if j == 38 {
            }
        }
    } else if code == 0xd004 {
        reveal_strlit("ESP_ERR_MEMPROT_SPLIT_ADDR_UNALIGNED");
        reveal_strlit("[ESP_ERR_MEMPROT_SPLIT_ADDR_UNALIGNED]: No further error description");
        assert(spec_error_info(code).unwrap().subrange(0, spec_error_name(code).unwrap().len() + 4int)
            =~= seq!['['] + spec_error_name(code).unwrap() + seq![']', ':', ' ']);
        assert(ESP_IDF_ERROR_CODES@[200] == code);
        let name = spec_error_name(code).unwrap();
        assert(name.subrange(0, 4) =~= seq!['E', 'S', 'P', '_']);
        assert(name.subrange(0, 8) =~= seq!['E', 'S', 'P', '_', 'E', 'R', 'R', '_']);
        assert forall|j: int| 0 <= j < name.len() implies is_name_char(#[trigger] name[j]) by {
            if j == 0 {
            } else if j == 1 {
            } else if j == 2 {
            } else if j == 3 {
            } else if j == 4 {
            } else if j == 5 {
            } else if j == 6 {
            } else if j == 7 {
            } else if j == 8 {
            } else if j == 9 {
            } else if j == 10 {
            } else if j == 11 {
            } else if j == 12 {
            } else if j == 13 {
            } else if j == 14 {
            } else if j == 15 {
            } else if j == 16 {
            } else if j == 17 {
            } else if j == 18 {
            } else if j == 19 {
            } else if j == 20 {
            } else if j == 21 {
            } else if j == 22 {
            } else if j == 23 {
            } else if j == 24 {
            } else if j == 25 {
            } else if j == 26 {
            } else if j == 27 {
            } else if j == 28 {
            } else if j == 29 {
            } else if j == 30 {
            } else if j == 31 {
            } else if j == 32 {
            } else if j == 33 {
            } else if j == 34 {
            } else if j == 35 {
            }
        }
    } else if code == 0xd005 {
        reveal_strlit("ESP_ERR_MEMPROT_UNIMGMT_BLOCK_INVALID");
        reveal_strlit("[ESP_ERR_MEMPROT_UNIMGMT_BLOCK_INVALID]: No further error description");
        assert(spec_error_info(code).unwrap().subrange(0, spec_error_name(code).unwrap().len() + 4int)
            =~= seq!['['] + spec_error_name(code).unwrap() + seq![']', ':', ' ']);
        assert(ESP_IDF_ERROR_CODES@[201] == code);
        let name = spec_error_name(code).unwrap();
        assert(name.subrange(0, 4) =~= seq!['E', 'S', 'P', '_']);
        assert(name.subrange(0, 8) =~= seq!['E', 'S', 'P', '_', 'E', 'R', 'R', '_']);
        assert forall|j: int| 0 <= j < name.len() implies is_name_char(#[trigger] name[j]) by {
            if j == 0 {
            } else if j == 1 {
            } else if j == 2 {
            } else if j == 3 {
            } else if j == 4 {
            } else if j == 5 {
            } else if j == 6 {
            } else if j == 7 {
            } else if j == 8 {
            } else if j == 9 {
            } else if j == 10 {
            } else if j == 11 {
            } else if j == 12 {
            } else if j == 13 {
            } else if j == 14 {
            } else if j == 15 {
            } else if j == 16 {
            } else if j == 17 {
            } else if j == 18 {
            } else if j == 19 {
            } else if j == 20 {
            } else if j == 21 {
            } else if j == 22 {
            } else if j == 23 {
            } else if j == 24 {
            } else if j == 25 {
            } else if j == 26 {
            } else if j == 27 {
            } else if j == 28 {
            } else if j == 29 {
            } else if j == 30 {
            } else if j == 31 {
            } else if j == 32 {
            } else if j == 33 {
            } else if j == 34 {
            } else if j == 35 {
            } else if j == 36 {
            }
        }
    } else if code == 0xd006 {
        reveal_strlit("ESP_ERR_MEMPROT_WORLD_INVALID");
        reveal_strlit("[ESP_ERR_MEMPROT_WORLD_INVALID]: No further error description");
        assert(spec_error_info(code).unwrap().subrange(0, spec_error_name(code).unwrap().len() + 4int)
            =~= seq!['['] + spec_error_name(code).unwrap() + seq![']', ':', ' ']);
        assert(ESP_IDF_ERROR_CODES@[202] == code);
        let name = spec_error_name(code).unwrap();
        assert(name.subrange(0, 4) =~= seq!['E', 'S', 'P', '_']);
        assert(name.subrange(0, 8) =~= seq!['E', 'S', 'P', '_', 'E', 'R', 'R', '_']);
        assert forall|j: int| 0 <= j < name.len() implies is_name_char(#[trigger] name[j]) by {
            if j == 0 {
            } else if j == 1 {
            } else if j == 2 {
            } else if j == 3 {
            } else if j == 4 {
            } else if j == 5 {
            } else if j == 6 {
            } else if j == 7 {
            } else if j == 8 {
            } else if j == 9 {
            } else if j == 10 {
            } else if j == 11 {
            } else if j == 12 {
            } else if j == 13 {
            } else if j == 14 {
            } else if j == 15 {
            } else if j == 16 {
            } else if j == 17 {
            } else if j == 18 {
            } else if j == 19 {
            } else if j == 20 {
            } else if j == 21 {
            } else if j == 22 {
            } else if j == 23 {
            } else if j == 24 {
            } else if j == 25 {
            } else if j == 26 {
            } else if j == 27 {
            } else if j == 28 {
            }
        }
    } else if code == 0xd007 {
        reveal_strlit("ESP_ERR_MEMPROT_AREA_INVALID");
        reveal_strlit("[ESP_ERR_MEMPROT_AREA_INVALID]: No further error description");
        assert(spec_error_info(code).unwrap().subrange(0, spec_error_name(code).unwrap().len() + 4int)
            =~= seq!['['] + spec_error_name(code).unwrap() + seq![']', ':', ' ']);
        assert(ESP_IDF_ERROR_CODES@[203] == code);
        let name = spec_error_name(code).unwrap();
        assert(name.subrange(0, 4) =~= seq!['E', 'S', 'P', '_']);
        assert(name.subrange(0, 8) =~= seq!['E', 'S', 'P', '_', 'E', 'R', 'R', '_']);
        assert forall|j: int| 0 <= j < name.len() implies is_name_char(#[trigger] name[j]) by {
            if j == 0 {
            } else if j == 1 {
            } else if j == 2 {
            } else if j == 3 {
            } else if j == 4 {
            } else if j == 5 {
            } else if j == 6 {
            } else if j == 7 {
            } else if j == 8 {
            } else if j == 9 {
            } else if j == 10 {
            } else if j == 11 {
            } else if j == 12 {
            } else if j == 13 {
            } else if j == 14 {
            } else if j == 15 {
            } else if j == 16 {
            } else if j == 17 {
            } else if j == 18 {
            } else if j == 19 {
            } else if j == 20 {
            } else if j == 21 {
            } else if j == 22 {
            } else if j == 23 {
            } else if j == 24 {
            } else if j == 25 {
            } else if j == 26 {
            } else if j == 27 {
            }
        }
    } else if code == 0xd008 {
        reveal_strlit("ESP_ERR_MEMPROT_CPUID_INVALID");
        reveal_strlit("[ESP_ERR_MEMPROT_CPUID_INVALID]: No further error description");
        assert(spec_error_info(code).unwrap().subrange(0, spec_error_name(code).unwrap().len() + 4int)
            =~= seq!['['] + spec_error_name(code).unwrap() + seq![']', ':', ' ']);
        assert(ESP_IDF_ERROR_CODES@[204] == code);
        let name = spec_error_name(code).unwrap();
        assert(name.subrange(0, 4) =~= seq!['E', 'S', 'P', '_']);
        assert(name.subrange(0, 8) =~= seq!['E', 'S', 'P', '_', 'E', 'R', 'R', '_']);
        assert forall|j: int| 0 <= j < name.len() implies is_name_char(#[trigger] name[j]) by {
            if j == 0 {
            } else if j == 1 {
            } else if j == 2 {
            } else if j == 3 {
            } else if j == 4 {
            } else if j == 5 {
            } else if j == 6 {
            } else if j == 7 {
            } else if j == 8 {
            } else if j == 9 {
            } else if j == 10 {
            } else if j == 11 {
            } else if j == 12 {
            } else if j == 13 {
            } else if j == 14 {
            } else if j == 15 {
            } else if j == 16 {
            } else if j == 17 {
            } else if j == 18 {
            } else if j == 19 {
            } else if j == 20 {
            } else if j == 21 {
            } else if j == 22 {
            } else if j == 23 {
            } else if j == 24 {
            } else if j == 25 {
            } else if j == 26 {
            } else if j == 27 {
            } else if j == 28 {
            }
        }
    } else if code == 0xe001 {
        reveal_strlit("ESP_ERR_TCP_TRANSPORT_CONNECTION_TIMEOUT");
        reveal_strlit("[ESP_ERR_TCP_TRANSPORT_CONNECTION_TIMEOUT]: Connection has timed out");
        assert(spec_error_info(code).unwrap().subrange(0, spec_error_name(code).unwrap().len() + 4int)
            =~= seq!['['] + spec_error_name(code).unwrap() + seq![']', ':', ' ']);
        assert(ESP_IDF_ERROR_CODES@[205] == code);
        let name = spec_error_name(code).unwrap();
        assert(name.subrange(0, 4) =~= seq!['E', 'S', 'P', '_']);
        assert(name.subrange(0, 8) =~= seq!['E', 'S', 'P', '_', 'E', 'R', 'R', '_']);
        assert forall|j: int| 0 <= j < name.len() implies is_name_char(#[trigger] name[j]) by {
            if j == 0 {
            } else if j == 1 {
            } else if j == 2 {
            } else if j == 3 {
            } else if j == 4 {
            } else if j == 5 {
            } else if j == 6 {
            } else if j == 7 {
            } else if j == 8 {
            } else if j == 9 {
            } else if j == 10 {
            } else if j == 11 {
            } else if j == 12 {
            } else if j == 13 {
            } else if j == 14 {
            } else if j == 15 {
            } else if j == 16 {
            } else if j == 17 {
            } else if j == 18 {
            } else if j == 19 {
            } else if j == 20 {
            } else if j == 21 {
            } else if j == 22 {
            } else if j == 23 {
            } else if j == 24 {
            } else if j == 25 {
            } else if j == 26 {
            } else if j == 27 {
            } else if j == 28 {
            } else if j == 29 {
            } else if j == 30 {
            } else if j == 31 {
            } else if j == 32 {
            } else if j == 33 {
            } else if j == 34 {
            } else if j == 35 {
            } else if j == 36 {
            } else if j == 37 {
            } else if j == 38 {
            } else if j == 39 {
            }
        }
    } else if code == 0xe002 {
        reveal_strlit("ESP_ERR_TCP_TRANSPORT_CONNECTION_CLOSED_BY_FIN");
        reveal_strlit("[ESP_ERR_TCP_TRANSPORT_CONNECTION_CLOSED_BY_FIN]: Read FIN from peer and the connection has closed (in a clean way)");
        assert(spec_error_info(code).unwrap().subrange(0, spec_error_name(code).unwrap().len() + 4int)
            =~= seq!['['] + spec_error_name(code).unwrap() + seq![']', ':', ' ']);
        assert(ESP_IDF_ERROR_CODES@[206] == code);
        let name = spec_error_name(code).unwrap();
        assert(name.subrange(0, 4) =~= seq!['E', 'S', 'P', '_']);
        assert(name.subrange(0, 8) =~= seq!['E', 'S', 'P', '_', 'E', 'R', 'R', '_']);
        assert forall|j: int| 0 <= j < name.len() implies is_name_char(#[trigger] name[j]) by {
            if j == 0 {
            } else if j == 1 {
            } else if j == 2 {
            } else if j == 3 {
            } else if j == 4 {
            } else if j == 5 {
            } else if j == 6 {
            } else if j == 7 {
            } else if j == 8 {
            } else if j == 9 {
            } else if j == 10 {
            } else if j == 11 {
            } else if j == 12 {
            } else if j == 13 {
            } else if j == 14 {
            } else if j == 15 {
            } else if j == 16 {
            } else if j == 17 {
            } else if j == 18 {
            } else if j == 19 {
            } else if j == 20 {
            } else if j == 21 {
            } else if j == 22 {
            } else if j == 23 {
            } else if j == 24 {
            } else if j == 25 {
            } else if j == 26 {
            } else if j == 27 {
            } else if j == 28 {
            } else if j == 29 {
            } else if j == 30 {
            } else if j == 31 {
            } else if j == 32 {
            } else if j == 33 {
            } else if j == 34 {
            } else if j == 35 {
            } else if j == 36 {
            } else if j == 37 {
            } else if j == 38 {
            } else if j == 39 {
            } else if j == 40 {
            } else if j == 41 {
            } else if j == 42 {
            } else if j == 43 {
            } else if j == 44 {
            } else if j == 45 {
            }
        }
    } else if code == 0xe003 {
        reveal_strlit("ESP_ERR_TCP_TRANSPORT_CONNECTION_FAILED");
        reveal_strlit("[ESP_ERR_TCP_TRANSPORT_CONNECTION_FAILED]: Failed to connect to the peer");
        assert(spec_error_info(code).unwrap().subrange(0, spec_error_name(code).unwrap().len() + 4int)
            =~= seq!['['] + spec_error_name(code).unwrap() + seq![']', ':', ' ']);
        assert(ESP_IDF_ERROR_CODES@[207] == code);
        let name = spec_error_name(code).unwrap();
        assert(name.subrange(0, 4) =~= seq!['E', 'S', 'P', '_']);
        assert(name.subrange(0, 8) =~= seq!['E', 'S', 'P', '_', 'E', 'R', 'R', '_']);
        assert forall|j: int| 0 <= j < name.len() implies is_name_char(#[trigger] name[j]) by {
            if j == 0 {
            } else if j == 1 {
            } else if j == 2 {
            } else if j == 3 {
            } else if j == 4 {
            } else if j == 5 {
            } else if j == 6 {
            } else if j == 7 {
            } else if j == 8 {
            } else if j == 9 {
            } else if j == 10 {
            } else if j == 11 {
            } else if j == 12 {
            } else if j == 13 {
            } else if j == 14 {
            } else if j == 15 {
            } else if j == 16 {
            } else if j == 17 {
            } else if j == 18 {
            } else if j == 19 {
            } else if j == 20 {
            } else if j == 21 {
            } else if j == 22 {
            } else if j == 23 {
            } else if j == 24 {
            } else if j == 25 {
            } else if j == 26 {
            } else if j == 27 {
            } else if j == 28 {
            } else if j == 29 {
            } else if j == 30 {
            } else if j == 31 {
            } else if j == 32 {
            } else if j == 33 {
            } else if j == 34 {
            } else if j == 35 {
            } else if j == 36 {
            } else if j == 37 {
            } else if j == 38 {
            }
        }
    }
}

/// Entries 192 to 207 of `ESP_IDF_ERROR_CODES` are known codes, each below the next.
proof fn lemma_table_indices_12(i: int)
    requires
        192 <= i < 208,
    ensures
        is_error_code(ESP_IDF_ERROR_CODES@[i]),
        ESP_IDF_ERROR_CODES@[i] < ESP_IDF_ERROR_CODES@[i + 1],
{
    if i == 192 {
        assert(ESP_IDF_ERROR_CODES@[i] == 0xb008);
        assert(ESP_IDF_ERROR_CODES@[i + 1] == 0xc001);
    } else if i == 193 {
        assert(ESP_IDF_ERROR_CODES@[i] == 0xc001);
        assert(ESP_IDF_ERROR_CODES@[i + 1] == 0xc002);
    } else if i == 194 {
        assert(ESP_IDF_ERROR_CODES@[i] == 0xc002);
        assert(ESP_IDF_ERROR_CODES@[i + 1] == 0xc004);
    } else if i == 195 {
        assert(ESP_IDF_ERROR_CODES@[i] == 0xc004);
        assert(ESP_IDF_ERROR_CODES@[i + 1] == 0xc005);
    } else if i == 196 {
        assert(ESP_IDF_ERROR_CODES@[i] == 0xc005);
        assert(ESP_IDF_ERROR_CODES@[i + 1] == 0xd001);
    } else if i == 197 {
        assert(ESP_IDF_ERROR_CODES@[i] == 0xd001);
        assert(ESP_IDF_ERROR_CODES@[i + 1] == 0xd002);
    } else if i == 198 {
        assert(ESP_IDF_ERROR_CODES@[i] == 0xd002);
        assert(ESP_IDF_ERROR_CODES@[i + 1] == 0xd003);
    } else if i == 199 {
        assert(ESP_IDF_ERROR_CODES@[i] == 0xd003);
        assert(ESP_IDF_ERROR_CODES@[i + 1] == 0xd004);
    } else if i == 200 {
        assert(ESP_IDF_ERROR_CODES@[i] == 0xd004);
        assert(ESP_IDF_ERROR_CODES@[i + 1] == 0xd005);
    } else if i == 201 {
        assert(ESP_IDF_ERROR_CODES@[i] == 0xd005);
        assert(ESP_IDF_ERROR_CODES@[i + 1] == 0xd006);
    } else if i == 202 {
        assert(ESP_IDF_ERROR_CODES@[i] == 0xd006);
        assert(ESP_IDF_ERROR_CODES@[i + 1] == 0xd007);
    } else if i == 203 {
        assert(ESP_IDF_ERROR_CODES@[i] == 0xd007);
        assert(ESP_IDF_ERROR_CODES@[i + 1] == 0xd008);
    } else if i == 204 {
        assert(ESP_IDF_ERROR_CODES@[i] == 0xd008);
        assert(ESP_IDF_ERROR_CODES@[i + 1] == 0xe001);
    } else if i == 205 {
        assert(ESP_IDF_ERROR_CODES@[i] == 0xe001);
        assert(ESP_IDF_ERROR_CODES@[i + 1] == 0xe002);
    } else if i == 206 {
        assert(ESP_IDF_ERROR_CODES@[i] == 0xe002);
        assert(ESP_IDF_ERROR_CODES@[i + 1] == 0xe003);
    } else if i == 207 {
        assert(ESP_IDF_ERROR_CODES@[i] == 0xe003);
        assert(ESP_IDF_ERROR_CODES@[i + 1] == 0xe004);
    }
}

/// The table facts for every code from `0xe004` to `i32::MAX`.
proof fn lemma_table_codes_13(code: i32)
    requires
        0xe004 <= code <= i32::MAX,
    ensures
        table_facts(code),
{
    if code == 0xe004 {
        reveal_strlit("ESP_ERR_TCP_TRANSPORT_NO_MEM");
        reveal_strlit("[ESP_ERR_TCP_TRANSPORT_NO_MEM]: Memory allocation failed");
        assert(spec_error_info(code).unwrap().subrange(0, spec_error_name(code).unwrap().len() + 4int)
            =~= seq!['['] + spec_error_name(code).unwrap() + seq![']', ':', ' ']);
        assert(ESP_IDF_ERROR_CODES@[208] == code);
        let name = spec_error_name(code).unwrap();
        assert(name.subrange(0, 4) =~= seq!['E', 'S', 'P', '_']);
        assert(name.subrange(0, 8) =~= seq!['E', 'S', 'P', '_', 'E', 'R', 'R', '_']);
        assert forall|j: int| 0 <= j < name.len() implies is_name_char(#[trigger] name[j]) by {
            if j == 0 {
            } else if j == 1 {
            } else if j == 2 {
            } else if j == 3 {
            } else if j == 4 {
            } else if j == 5 {
            } else if j == 6 {
            } else if j == 7 {
            } else if j == 8 {
            } else if j == 9 {
            } else if j == 10 {
            } else if j == 11 {
            } else if j == 12 {
            } else if j == 13 {
            } else if j == 14 {
            } else if j == 15 {
            } else if j == 16 {
            } else if j == 17 {
            } else if j == 18 {
            } else if j == 19 {
            } else if j == 20 {
            } else if j == 21 {
            } else if j == 22 {
            } else if j == 23 {
            } else if j == 24 {
            } else if j == 25 {
            } else if j == 26 {
            } else if j == 27 {
            }
        }
    } else if code == 0xf001 {
        reveal_strlit("ESP_ERR_NVS_SEC_HMAC_KEY_NOT_FOUND");
        reveal_strlit("[ESP_ERR_NVS_SEC_HMAC_KEY_NOT_FOUND]: HMAC Key required to generate the NVS encryption keys not found");
        assert(spec_error_info(code).unwrap().subrange(0, spec_error_name(code).unwrap().len() + 4int)
            =~= seq!['['] + spec_error_name(code).unwrap() + seq![']', ':', ' ']);
        assert(ESP_IDF_ERROR_CODES@[209] == code);
        let name = spec_error_name(code).unwrap();
        assert(name.subrange(0, 4) =~= seq!['E', 'S', 'P', '_']);
        assert(name.subrange(0, 8) =~= seq!['E', 'S', 'P', '_', 'E', 'R', 'R', '_']);
        assert forall|j: int| 0 <= j < name.len() implies is_name_char(#[trigger] name[j]) by {
            if j == 0 {
            } else if j == 1 {
            } else if j == 2 {
            } else if j == 3 {
            } else if j == 4 {
            } else if j == 5 {
            } else if j == 6 {
            } else if j == 7 {
            } else if j == 8 {
            } else if j == 9 {
            } else if j == 10 {
            } else if j == 11 {
            } else if j == 12 {
            } else if j == 13 {
            } else if j == 14 {
            } else if j == 15 {
            } else if j == 16 {
            } else if j == 17 {
            } else if j == 18 {
            } else if j == 19 {
            } else if j == 20 {
            } else if j == 21 {
            } else if j == 22 {
            } else if j == 23 {
            } else if j == 24 {
            } else if j == 25 {
            } else if j == 26 {
            } else if j == 27 {
            } else if j == 28 {
            } else if j == 29 {
            } else if j == 30 {
            } else if j == 31 {
            } else if j == 32 {
            } else if j == 33 {
            }
        }
    } else if code == 0xf002 {
        reveal_strlit("ESP_ERR_NVS_SEC_HMAC_KEY_BLK_ALREADY_USED");
        reveal_strlit("[ESP_ERR_NVS_SEC_HMAC_KEY_BLK_ALREADY_USED]: Provided eFuse block for HMAC key generation is already in use");
        assert(spec_error_info(code).unwrap().subrange(0, spec_error_name(code).unwrap().len() + 4int)
            =~= seq!['['] + spec_error_name(code).unwrap() + seq![']', ':', ' ']);
        assert(ESP_IDF_ERROR_CODES@[210] == code);
        let name = spec_error_name(code).unwrap();
        assert(name.subrange(0, 4) =~= seq!['E', 'S', 'P', '_']);
        assert(name.subrange(0, 8) =~= seq!['E', 'S', 'P', '_', 'E', 'R', 'R', '_']);
        assert forall|j: int| 0 <= j < name.len() implies is_name_char(#[trigger] name[j]) by {
            if j == 0 {
            } else if j == 1 {
            } else if j == 2 {
            } else if j == 3 {
            } else if j == 4 {
            } else if j == 5 {
            } else if j == 6 {
            } else if j == 7 {
            } else if j == 8 {
            } else if j == 9 {
            } else if j == 10 {
            } else if j == 11 {
            } else if j == 12 {
            } else if j == 13 {
            } else if j == 14 {
            } else if j == 15 {
            } else if j == 16 {
            } else if j == 17 {
            } else if j == 18 {
            } else if j == 19 {
            } else if j == 20 {
            } else if j == 21 {
            } else if j == 22 {
            } else if j == 23 {
            } else if j == 24 {
            } else if j == 25 {
            } else if j == 26 {
            } else if j == 27 {
            } else if j == 28 {
            } else if j == 29 {
            } else if j == 30 {
            } else if j == 31 {
            } else if j == 32 {
            } else if j == 33 {
            } else if j == 34 {
            } else if j == 35 {
            } else if j == 36 {
            } else if j == 37 {
            } else if j == 38 {
            } else if j == 39 {
            } else if j == 40 {
            }
        }
    } else if code == 0xf003 {
        reveal_strlit("ESP_ERR_NVS_SEC_HMAC_KEY_GENERATION_FAILED");
        reveal_strlit("[ESP_ERR_NVS_SEC_HMAC_KEY_GENERATION_FAILED]: Failed to generate/write the HMAC key to eFuse");
        assert(spec_error_info(code).unwrap().subrange(0, spec_error_name(code).unwrap().len() + 4int)
            =~= seq!['['] + spec_error_name(code).unwrap() + seq![']', ':', ' ']);
        assert(ESP_IDF_ERROR_CODES@[211] == code);
        let name = spec_error_name(code).unwrap();
        assert(name.subrange(0, 4) =~= seq!['E', 'S', 'P', '_']);
        assert(name.subrange(0, 8) =~= seq!['E', 'S', 'P', '_', 'E', 'R', 'R', '_']);
        assert forall|j: int| 0 <= j < name.len() implies is_name_char(#[trigger] name[j]) by {
            if j == 0 {
            } else if j == 1 {
            } else if j == 2 {
            } else if j == 3 {
            } else if j == 4 {
            } else if j == 5 {
            } else if j == 6 {
            } else if j == 7 {
            } else if j == 8 {
            } else if j == 9 {
            } else if j == 10 {
            } else if j == 11 {
            } else if j == 12 {
            } else if j == 13 {
            } else if j == 14 {
            } else if j == 15 {
            } else if j == 16 {
            } else if j == 17 {
            } else if j == 18 {
            } else if j == 19 {
            } else if j == 20 {
            } else if j == 21 {
            } else if j == 22 {
            } else if j == 23 {
            } else if j == 24 {
            } else if j == 25 {
            } else if j == 26 {
            } else if j == 27 {
            } else if j == 28 {
            } else if j == 29 {
            } else if j == 30 {
            } else if j == 31 {
            } else if j == 32 {
            } else if j == 33 {
            } else if j == 34 {
            } else if j == 35 {
            } else if j == 36 {
            } else if j == 37 {
            } else if j == 38 {
            } else if j == 39 {
            } else if j == 40 {
            } else if j == 41 {
            }
        }
    } else if code == 0xf004 {
        reveal_strlit("ESP_ERR_NVS_SEC_HMAC_XTS_KEYS_DERIV_FAILED");
        reveal_strlit("[ESP_ERR_NVS_SEC_HMAC_XTS_KEYS_DERIV_FAILED]: Failed to derive the NVS encryption keys based on the HMAC-based scheme");
        assert(spec_error_info(code).unwrap().subrange(0, spec_error_name(code).unwrap().len() + 4int)
            =~= seq!['['] + spec_error_name(code).unwrap() + seq![']', ':', ' ']);
        assert(ESP_IDF_ERROR_CODES@[212] == code);
        let name = spec_error_name(code).unwrap();
        assert(name.subrange(0, 4) =~= seq!['E', 'S', 'P', '_']);
        assert(name.subrange(0, 8) =~= seq!['E', 'S', 'P', '_', 'E', 'R', 'R', '_']);
        assert forall|j: int| 0 <= j < name.len() implies is_name_char(#[trigger] name[j]) by {
            if j == 0 {
            } else if j == 1 {
            } else if j == 2 {
            } else if j == 3 {
            } else if j == 4 {
            } else if j == 5 {
            } else if j == 6 {
            } else if j == 7 {
            } else if j == 8 {
            } else if j == 9 {
            } else if j == 10 {
            } else if j == 11 {
            } else if j == 12 {
            } else if j == 13 {
            } else if j == 14 {
            } else if j == 15 {
            } else if j == 16 {
            } else if j == 17 {
            } else if j == 18 {
            } else if j == 19 {
            } else if j == 20 {
            } else if j == 21 {
            } else if j == 22 {
            } else if j == 23 {
            } else if j == 24 {
            } else if j == 25 {
            } else if j == 26 {
            } else if j == 27 {
            } else if j == 28 {
            } else if j == 29 {
            } else if j == 30 {
            } else if j == 31 {
            } else if j == 32 {
            } else if j == 33 {
            } else if j == 34 {
            } else if j == 35 {
            } else if j == 36 {
            } else if j == 37 {
            } else if j == 38 {
            } else if j == 39 {
            } else if j == 40 {
            } else if j == 41 {
            }
        }
    }
}

/// Entries 208 to 212 of `ESP_IDF_ERROR_CODES` are known codes, each below the next.
proof fn lemma_table_indices_13(i: int)
    requires
        208 <= i < 213,
    ensures
        is_error_code(ESP_IDF_ERROR_CODES@[i]),
        i + 1 < 213 ==> ESP_IDF_ERROR_CODES@[i] < ESP_IDF_ERROR_CODES@[i + 1],
{
    if i == 208 {
        assert(ESP_IDF_ERROR_CODES@[i] == 0xe004);
        assert(ESP_IDF_ERROR_CODES@[i + 1] == 0xf001);
    } else if i == 209 {
        assert(ESP_IDF_ERROR_CODES@[i] == 0xf001);
        assert(ESP_IDF_ERROR_CODES@[i + 1] == 0xf002);
    } else if i == 210 {
        assert(ESP_IDF_ERROR_CODES@[i] == 0xf002);
        assert(ESP_IDF_ERROR_CODES@[i + 1] == 0xf003);
    } else if i == 211 {
        assert(ESP_IDF_ERROR_CODES@[i] == 0xf003);
        assert(ESP_IDF_ERROR_CODES@[i + 1] == 0xf004);
    } else if i == 212 {
        assert(ESP_IDF_ERROR_CODES@[i] == 0xf004);
    }
}

/// The table facts for every code.
proof fn lemma_table_facts(code: i32)
    ensures
        table_facts(code),
{
    if code < 4355 {
        lemma_table_codes_0(code);
    } else if code < 4371 {
        lemma_table_codes_1(code);
    } else if code < 5381 {
        lemma_table_codes_2(code);
    } else if code < 12295 {
        lemma_table_codes_3(code);
    } else if code < 12313 {
        lemma_table_codes_4(code);
    } else if code < 12397 {
        lemma_table_codes_5(code);
    } else if code < 16394 {
        lemma_table_codes_6(code);
    } else if code < 16410 {
        lemma_table_codes_7(code);
    } else if code < 24578 {
        lemma_table_codes_8(code);
    } else if code < 28684 {
        lemma_table_codes_9(code);
    } else if code < 32790 {
        lemma_table_codes_10(code);
    } else if code < 45064 {
        lemma_table_codes_11(code);
    } else if code < 57348 {
        lemma_table_codes_12(code);
    } else {
        lemma_table_codes_13(code);
    }
}

/// Every entry of `ESP_IDF_ERROR_CODES` is a known code, and each is below the next.
proof fn lemma_table_index(i: int)
    requires
        0 <= i < 213,
    ensures
        is_error_code(ESP_IDF_ERROR_CODES@[i]),
        i + 1 < 213 ==> ESP_IDF_ERROR_CODES@[i] < ESP_IDF_ERROR_CODES@[i + 1],
{
    if i < 16 {
        lemma_table_indices_0(i);
    } else if i < 32 {
        lemma_table_indices_1(i);
    } else if i < 48 {
        lemma_table_indices_2(i);
    } else if i < 64 {
        lemma_table_indices_3(i);
    } else if i < 80 {
        lemma_table_indices_4(i);
    } else if i < 96 {
        lemma_table_indices_5(i);
    } else if i < 112 {
        lemma_table_indices_6(i);
    } else if i < 128 {
        lemma_table_indices_7(i);
    } else if i < 144 {
        lemma_table_indices_8(i);
    } else if i < 160 {
        lemma_table_indices_9(i);
    } else if i < 176 {
        lemma_table_indices_10(i);
    } else if i < 192 {
        lemma_table_indices_11(i);
    } else if i < 208 {
        lemma_table_indices_12(i);
    } else {
        lemma_table_indices_13(i);
    }
}

/// `ESP_IDF_ERROR_CODES` ascends strictly: an earlier entry is smaller than a
/// later one, so no code is listed twice.
pub proof fn lemma_error_codes_ascending(i: int, j: int)
    requires
        0 <= i < j < 213,
    ensures
        ESP_IDF_ERROR_CODES@[i] < ESP_IDF_ERROR_CODES@[j],
    decreases j - i,
{
    lemma_table_index(j - 1);
    if i < j - 1 {
        lemma_error_codes_ascending(i, j - 1);
    }
}

/// A code is a known error code exactly when `ESP_IDF_ERROR_CODES` lists it.
pub proof fn lemma_known_codes_are_listed(code: i32)
    ensures
        is_error_code(code) <==> ESP_IDF_ERROR_CODES@.contains(code),
{
    lemma_table_facts(code);
    if ESP_IDF_ERROR_CODES@.contains(code) {
        let i = choose|i: int| 0 <= i < 213 && ESP_IDF_ERROR_CODES@[i] == code;
        lemma_table_index(i);
    }
}

/// A code has a description exactly when it has a name, and the description
/// of a known code begins with its name in brackets, then a colon.
pub proof fn lemma_info_begins_with_name(code: i32)
    ensures
        (spec_error_info(code) is Some) == is_error_code(code),
        is_error_code(code) ==> begins_with_bracketed_name(
            spec_error_info(code).unwrap(),
            spec_error_name(code).unwrap(),
        ),
{
    lemma_table_facts(code);
}

/// Two known codes have the same name only when they are the same code.
pub proof fn lemma_names_distinct(a: i32, b: i32)
    requires
        is_error_code(a),
        is_error_code(b),
    ensures
        spec_error_name(a) == spec_error_name(b) <==> a == b,
{
    lemma_table_facts(a);
    lemma_table_facts(b);
}

/// The name of a known code has the shape of an error name, and every name but
/// those of `-1` (`ESP_FAIL`) and `0x1601` begins with `ESP_ERR_`.
pub proof fn lemma_name_shape(code: i32)
    requires
        is_error_code(code),
    ensures
        is_error_name_shape(spec_error_name(code).unwrap()),
        code != -1 && code != 0x1601 ==> spec_error_name(code).unwrap().subrange(0, 8)
            == seq!['E', 'S', 'P', '_', 'E', 'R', 'R', '_'],
{
    lemma_table_facts(code);
}

/// Two known codes have the same description only when they are the same code.
pub proof fn lemma_infos_distinct(a: i32, b: i32)
    requires
        is_error_code(a),
        is_error_code(b),
    ensures
        spec_error_info(a) == spec_error_info(b) <==> a == b,
{
    lemma_table_facts(a);
    lemma_table_facts(b);
    if spec_error_info(a) == spec_error_info(b) {
        let info = spec_error_info(a).unwrap();
        let name_a = spec_error_name(a).unwrap();
        let name_b = spec_error_name(b).unwrap();
        lemma_bracketed_names_agree(info, name_a, name_b);
        lemma_bracketed_names_agree(info, name_b, name_a);
        assert(name_a =~= name_b) by {
            assert forall|j: int| 0 <= j < name_a.len() implies name_a[j] == name_b[j] by {
                assert(info.subrange(0, name_a.len() + 4int)[j + 1] == name_a[j]);
                assert(info.subrange(0, name_b.len() + 4int)[j + 1] == name_b[j]);
            }
        }
    }
}

/// Where `info` begins with two names of error-name shape in brackets, the
/// first name is no shorter than the second.
proof fn lemma_bracketed_names_agree(info: Seq<char>, name_a: Seq<char>, name_b: Seq<char>)
    requires
        begins_with_bracketed_name(info, name_a),
        begins_with_bracketed_name(info, name_b),
        is_error_name_shape(name_a),
        is_error_name_shape(name_b),
    ensures
        name_a.len() >= name_b.len(),
{
    if name_a.len() < name_b.len() {
        let k = name_a.len() as int;
        assert(info.subrange(0, name_a.len() + 4int)[k + 1] == ']');
        assert(info.subrange(0, name_b.len() + 4int)[k + 1] == name_b[k]);
        assert(is_name_char(name_b[k]));
    }
}

/// The ESP-IDF symbolic names of the error codes, in the order of `ESP_IDF_ERROR_CODES`.
pub open spec fn esp_idf_error_names() -> Seq<Seq<char>> {
    seq![
        "ESP_FAIL"@,
        "ESP_ERR_NO_MEM"@,
        "ESP_ERR_INVALID_ARG"@,
        "ESP_ERR_INVALID_STATE"@,
        "ESP_ERR_INVALID_SIZE"@,
        "ESP_ERR_NOT_FOUND"@,
        "ESP_ERR_NOT_SUPPORTED"@,
        "ESP_ERR_TIMEOUT"@,
        "ESP_ERR_INVALID_RESPONSE"@,
        "ESP_ERR_INVALID_CRC"@,
        "ESP_ERR_INVALID_VERSION"@,
        "ESP_ERR_INVALID_MAC"@,
        "ESP_ERR_NOT_FINISHED"@,
        "ESP_ERR_NOT_ALLOWED"@,
        "ESP_ERR_NVS_NOT_INITIALIZED"@,
        "ESP_ERR_NVS_NOT_FOUND"@,
        "ESP_ERR_NVS_TYPE_MISMATCH"@,
        "ESP_ERR_NVS_READ_ONLY"@,
        "ESP_ERR_NVS_NOT_ENOUGH_SPACE"@,
        "ESP_ERR_NVS_INVALID_NAME"@,
        "ESP_ERR_NVS_INVALID_HANDLE"@,
        "ESP_ERR_NVS_REMOVE_FAILED"@,
        "ESP_ERR_NVS_KEY_TOO_LONG"@,
        "ESP_ERR_NVS_PAGE_FULL"@,
        "ESP_ERR_NVS_INVALID_STATE"@,
        "ESP_ERR_NVS_INVALID_LENGTH"@,
        "ESP_ERR_NVS_NO_FREE_PAGES"@,
        "ESP_ERR_NVS_VALUE_TOO_LONG"@,
        "ESP_ERR_NVS_PART_NOT_FOUND"@,
        "ESP_ERR_NVS_NEW_VERSION_FOUND"@,
        "ESP_ERR_NVS_XTS_ENCR_FAILED"@,
        "ESP_ERR_NVS_XTS_DECR_FAILED"@,
        "ESP_ERR_NVS_XTS_CFG_FAILED"@,
        "ESP_ERR_NVS_XTS_CFG_NOT_FOUND"@,
        "ESP_ERR_NVS_ENCR_NOT_SUPPORTED"@,
        "ESP_ERR_NVS_KEYS_NOT_INITIALIZED"@,
        "ESP_ERR_NVS_CORRUPT_KEY_PART"@,
        "ESP_ERR_NVS_CONTENT_DIFFERS"@,
        "ESP_ERR_NVS_WRONG_ENCRYPTION"@,
        "ESP_ERR_ULP_SIZE_TOO_BIG"@,
        "ESP_ERR_ULP_INVALID_LOAD_ADDR"@,
        "ESP_ERR_ULP_DUPLICATE_LABEL"@,
        "ESP_ERR_ULP_UNDEFINED_LABEL"@,
        "ESP_ERR_ULP_BRANCH_OUT_OF_RANGE"@,
        "ESP_ERR_OTA_PARTITION_CONFLICT"@,
        "ESP_ERR_OTA_SELECT_INFO_INVALID"@,
        "ESP_ERR_OTA_VALIDATE_FAILED"@,
        "ESP_ERR_OTA_SMALL_SEC_VER"@,
        "ESP_ERR_OTA_ROLLBACK_FAILED"@,
        "ESP_ERR_OTA_ROLLBACK_INVALID_STATE"@,
        "ESP_OK_EFUSE_CNT"@,
        "ESP_ERR_EFUSE_CNT_IS_FULL"@,
        "ESP_ERR_EFUSE_REPEATED_PROG"@,
        "ESP_ERR_CODING"@,
        "ESP_ERR_NOT_ENOUGH_UNUSED_KEY_BLOCKS"@,
        "ESP_ERR_DAMAGED_READING"@,
        "ESP_ERR_IMAGE_FLASH_FAIL"@,
        "ESP_ERR_IMAGE_INVALID"@,
        "ESP_ERR_WIFI_NOT_INIT"@,
        "ESP_ERR_WIFI_NOT_STARTED"@,
        "ESP_ERR_WIFI_NOT_STOPPED"@,
        "ESP_ERR_WIFI_IF"@,
        "ESP_ERR_WIFI_MODE"@,
        "ESP_ERR_WIFI_STATE"@,
        "ESP_ERR_WIFI_CONN"@,
        "ESP_ERR_WIFI_NVS"@,
        "ESP_ERR_WIFI_MAC"@,
        "ESP_ERR_WIFI_SSID"@,
        "ESP_ERR_WIFI_PASSWORD"@,
        "ESP_ERR_WIFI_TIMEOUT"@,
        "ESP_ERR_WIFI_WAKE_FAIL"@,
        "ESP_ERR_WIFI_WOULD_BLOCK"@,
        "ESP_ERR_WIFI_NOT_CONNECT"@,
        "ESP_ERR_WIFI_POST"@,
        "ESP_ERR_WIFI_INIT_STATE"@,
        "ESP_ERR_WIFI_STOP_STATE"@,
        "ESP_ERR_WIFI_NOT_ASSOC"@,
        "ESP_ERR_WIFI_TX_DISALLOW"@,
        "ESP_ERR_WIFI_TWT_FULL"@,
        "ESP_ERR_WIFI_TWT_SETUP_TIMEOUT"@,
        "ESP_ERR_WIFI_TWT_SETUP_TXFAIL"@,
        "ESP_ERR_WIFI_TWT_SETUP_REJECT"@,
        "ESP_ERR_WIFI_DISCARD"@,
        "ESP_ERR_WIFI_ROC_IN_PROGRESS"@,
        "ESP_ERR_WIFI_REGISTRAR"@,
        "ESP_ERR_WIFI_WPS_TYPE"@,
        "ESP_ERR_WIFI_WPS_SM"@,
        "ESP_ERR_ESPNOW_BASE"@,
        "ESP_ERR_ESPNOW_NOT_INIT"@,
        "ESP_ERR_ESPNOW_ARG"@,
        "ESP_ERR_ESPNOW_NO_MEM"@,
        "ESP_ERR_ESPNOW_FULL"@,
        "ESP_ERR_ESPNOW_NOT_FOUND"@,
        "ESP_ERR_ESPNOW_INTERNAL"@,
        "ESP_ERR_ESPNOW_EXIST"@,
        "ESP_ERR_ESPNOW_IF"@,
        "ESP_ERR_ESPNOW_CHAN"@,
        "ESP_ERR_DPP_FAILURE"@,
        "ESP_ERR_DPP_TX_FAILURE"@,
        "ESP_ERR_DPP_INVALID_ATTR"@,
        "ESP_ERR_DPP_AUTH_TIMEOUT"@,
        "ESP_ERR_DPP_INVALID_LIST"@,
        "ESP_ERR_DPP_CONF_TIMEOUT"@,
        "ESP_ERR_MESH_WIFI_NOT_START"@,
        "ESP_ERR_MESH_NOT_INIT"@,
        "ESP_ERR_MESH_NOT_CONFIG"@,
        "ESP_ERR_MESH_NOT_START"@,
        "ESP_ERR_MESH_NOT_SUPPORT"@,
        "ESP_ERR_MESH_NOT_ALLOWED"@,
        "ESP_ERR_MESH_NO_MEMORY"@,
        "ESP_ERR_MESH_ARGUMENT"@,
        "ESP_ERR_MESH_EXCEED_MTU"@,
        "ESP_ERR_MESH_TIMEOUT"@,
        "ESP_ERR_MESH_DISCONNECTED"@,
        "ESP_ERR_MESH_QUEUE_FAIL"@,
        "ESP_ERR_MESH_QUEUE_FULL"@,
        "ESP_ERR_MESH_NO_PARENT_FOUND"@,
        "ESP_ERR_MESH_NO_ROUTE_FOUND"@,
        "ESP_ERR_MESH_OPTION_NULL"@,
        "ESP_ERR_MESH_OPTION_UNKNOWN"@,
        "ESP_ERR_MESH_XON_NO_WINDOW"@,
        "ESP_ERR_MESH_INTERFACE"@,
        "ESP_ERR_MESH_DISCARD_DUPLICATE"@,
        "ESP_ERR_MESH_DISCARD"@,
        "ESP_ERR_MESH_VOTING"@,
        "ESP_ERR_MESH_XMIT"@,
        "ESP_ERR_MESH_QUEUE_READ"@,
        "ESP_ERR_MESH_PS"@,
        "ESP_ERR_MESH_RECV_RELEASE"@,
        "ESP_ERR_ESP_NETIF_INVALID_PARAMS"@,
        "ESP_ERR_ESP_NETIF_IF_NOT_READY"@,
        "ESP_ERR_ESP_NETIF_DHCPC_START_FAILED"@,
        "ESP_ERR_ESP_NETIF_DHCP_ALREADY_STARTED"@,
        "ESP_ERR_ESP_NETIF_DHCP_ALREADY_STOPPED"@,
        "ESP_ERR_ESP_NETIF_NO_MEM"@,
        "ESP_ERR_ESP_NETIF_DHCP_NOT_STOPPED"@,
        "ESP_ERR_ESP_NETIF_DRIVER_ATTACH_FAILED"@,
        "ESP_ERR_ESP_NETIF_INIT_FAILED"@,
        "ESP_ERR_ESP_NETIF_DNS_NOT_CONFIGURED"@,
        "ESP_ERR_ESP_NETIF_MLD6_FAILED"@,
        "ESP_ERR_ESP_NETIF_IP6_ADDR_FAILED"@,
        "ESP_ERR_ESP_NETIF_DHCPS_START_FAILED"@,
        "ESP_ERR_ESP_NETIF_TX_FAILED"@,
        "ESP_ERR_FLASH_OP_FAIL"@,
        "ESP_ERR_FLASH_OP_TIMEOUT"@,
        "ESP_ERR_FLASH_NOT_INITIALISED"@,
        "ESP_ERR_FLASH_UNSUPPORTED_HOST"@,
        "ESP_ERR_FLASH_UNSUPPORTED_CHIP"@,
        "ESP_ERR_FLASH_PROTECTED"@,
        "ESP_ERR_HTTP_MAX_REDIRECT"@,
        "ESP_ERR_HTTP_CONNECT"@,
        "ESP_ERR_HTTP_WRITE_DATA"@,
        "ESP_ERR_HTTP_FETCH_HEADER"@,
        "ESP_ERR_HTTP_INVALID_TRANSPORT"@,
        "ESP_ERR_HTTP_CONNECTING"@,
        "ESP_ERR_HTTP_EAGAIN"@,
        "ESP_ERR_HTTP_CONNECTION_CLOSED"@,
        "ESP_ERR_HTTP_NOT_MODIFIED"@,
        "ESP_ERR_HTTP_RANGE_NOT_SATISFIABLE"@,
        "ESP_ERR_HTTP_READ_TIMEOUT"@,
        "ESP_ERR_HTTP_INCOMPLETE_DATA"@,
        "ESP_ERR_ESP_TLS_CANNOT_RESOLVE_HOSTNAME"@,
        "ESP_ERR_ESP_TLS_CANNOT_CREATE_SOCKET"@,
        "ESP_ERR_ESP_TLS_UNSUPPORTED_PROTOCOL_FAMILY"@,
        "ESP_ERR_ESP_TLS_FAILED_CONNECT_TO_HOST"@,
        "ESP_ERR_ESP_TLS_SOCKET_SETOPT_FAILED"@,
        "ESP_ERR_ESP_TLS_CONNECTION_TIMEOUT"@,
        "ESP_ERR_ESP_TLS_SE_FAILED"@,
        "ESP_ERR_ESP_TLS_TCP_CLOSED_FIN"@,
        "ESP_ERR_ESP_TLS_SERVER_HANDSHAKE_TIMEOUT"@,
        "ESP_ERR_MBEDTLS_CERT_PARTLY_OK"@,
        "ESP_ERR_MBEDTLS_CTR_DRBG_SEED_FAILED"@,
        "ESP_ERR_MBEDTLS_SSL_SET_HOSTNAME_FAILED"@,
        "ESP_ERR_MBEDTLS_SSL_CONFIG_DEFAULTS_FAILED"@,
        "ESP_ERR_MBEDTLS_SSL_CONF_ALPN_PROTOCOLS_FAILED"@,
        "ESP_ERR_MBEDTLS_X509_CRT_PARSE_FAILED"@,
        "ESP_ERR_MBEDTLS_SSL_CONF_OWN_CERT_FAILED"@,
        "ESP_ERR_MBEDTLS_SSL_SETUP_FAILED"@,
        "ESP_ERR_MBEDTLS_SSL_WRITE_FAILED"@,
        "ESP_ERR_MBEDTLS_PK_PARSE_KEY_FAILED"@,
        "ESP_ERR_MBEDTLS_SSL_HANDSHAKE_FAILED"@,
        "ESP_ERR_MBEDTLS_SSL_CONF_PSK_FAILED"@,
        "ESP_ERR_MBEDTLS_SSL_TICKET_SETUP_FAILED"@,
        "ESP_ERR_MBEDTLS_SSL_READ_FAILED"@,
        "ESP_ERR_HTTPS_OTA_IN_PROGRESS"@,
        "ESP_ERR_HTTPD_HANDLERS_FULL"@,
        "ESP_ERR_HTTPD_HANDLER_EXISTS"@,
        "ESP_ERR_HTTPD_INVALID_REQ"@,
        "ESP_ERR_HTTPD_RESULT_TRUNC"@,
        "ESP_ERR_HTTPD_RESP_HDR"@,
        "ESP_ERR_HTTPD_RESP_SEND"@,
        "ESP_ERR_HTTPD_ALLOC_MEM"@,
        "ESP_ERR_HTTPD_TASK"@,
        "ESP_ERR_HW_CRYPTO_DS_HMAC_FAIL"@,
        "ESP_ERR_HW_CRYPTO_DS_INVALID_KEY"@,
        "ESP_ERR_HW_CRYPTO_DS_INVALID_DIGEST"@,
        "ESP_ERR_HW_CRYPTO_DS_INVALID_PADDING"@,
        "ESP_ERR_MEMPROT_MEMORY_TYPE_INVALID"@,
        "ESP_ERR_MEMPROT_SPLIT_ADDR_INVALID"@,
        "ESP_ERR_MEMPROT_SPLIT_ADDR_OUT_OF_RANGE"@,
        "ESP_ERR_MEMPROT_SPLIT_ADDR_UNALIGNED"@,
        "ESP_ERR_MEMPROT_UNIMGMT_BLOCK_INVALID"@,
        "ESP_ERR_MEMPROT_WORLD_INVALID"@,
        "ESP_ERR_MEMPROT_AREA_INVALID"@,
        "ESP_ERR_MEMPROT_CPUID_INVALID"@,
        "ESP_ERR_TCP_TRANSPORT_CONNECTION_TIMEOUT"@,
        "ESP_ERR_TCP_TRANSPORT_CONNECTION_CLOSED_BY_FIN"@,
        "ESP_ERR_TCP_TRANSPORT_CONNECTION_FAILED"@,
        "ESP_ERR_TCP_TRANSPORT_NO_MEM"@,
        "ESP_ERR_NVS_SEC_HMAC_KEY_NOT_FOUND"@,
        "ESP_ERR_NVS_SEC_HMAC_KEY_BLK_ALREADY_USED"@,
        "ESP_ERR_NVS_SEC_HMAC_KEY_GENERATION_FAILED"@,
        "ESP_ERR_NVS_SEC_HMAC_XTS_KEYS_DERIV_FAILED"@,
    ]
}

/// The ESP-IDF explanations of the error codes, in the order of `ESP_IDF_ERROR_CODES`.
pub open spec fn esp_idf_error_texts() -> Seq<Seq<char>> {
    seq![
        "Generic esp_err_t code indicating failure"@,
        "Out of memory"@,
        "Invalid argument"@,
        "Invalid state"@,
        "Invalid size"@,
        "Requested resource not found"@,
        "Operation or feature not supported"@,
        "Operation timed out"@,
        "Received response was invalid"@,
        "CRC or checksum was invalid"@,
        "Version was invalid"@,
        "MAC address was invalid"@,
        "Operation has not fully completed"@,
        "Operation is not allowed"@,
        "The storage driver is not initialized"@,
        "A requested entry couldn't be found or namespace doesn’t exist yet and mode is NVS_READONLY"@,
        "The type of set or get operation doesn't match the type of value stored in NVS"@,
        "Storage handle was opened as read only"@,
        "There is not enough space in the underlying storage to save the value"@,
        "Namespace name doesn’t satisfy constraints"@,
        "Handle has been closed or is NULL"@,
        "The value wasn’t updated because flash write operation has failed. The value was written however, and update will be finished after re-initialization of nvs, provided that flash operation doesn’t fail again."@,
        "Key name is too long"@,
        "Internal error; never returned by nvs API functions"@,
        "NVS is in an inconsistent state due to a previous error. Call nvs_flash_init and nvs_open again, then retry."@,
        "String or blob length is not sufficient to store data"@,
        "NVS partition doesn't contain any empty pages. This may happen if NVS partition was truncated. Erase the whole partition and call nvs_flash_init again."@,
        "Value doesn't fit into the entry or string or blob length is longer than supported by the implementation"@,
        "Partition with specified name is not found in the partition table"@,
        "NVS partition contains data in new format and cannot be recognized by this version of code"@,
        "XTS encryption failed while writing NVS entry"@,
        "XTS decryption failed while reading NVS entry"@,
        "XTS configuration setting failed"@,
        "XTS configuration not found"@,
        "NVS encryption is not supported in this version"@,
        "NVS key partition is uninitialized"@,
        "NVS key partition is corrupt"@,
        "Internal error; never returned by nvs API functions. NVS key is different in comparison"@,
        "NVS partition is marked as encrypted with generic flash encryption. This is forbidden since the NVS encryption works differently."@,
        "Program doesn't fit into RTC memory reserved for the ULP"@,
        "Load address is outside of RTC memory reserved for the ULP"@,
        "More than one label with the same number was defined"@,
        "Branch instructions references an undefined label"@,
        "Branch target is out of range of B instruction (try replacing with BX)"@,
        "Error if request was to write or erase the current running partition"@,
        "Error if OTA data partition contains invalid content"@,
        "Error if OTA app image is invalid"@,
        "Error if the firmware has a secure version less than the running firmware."@,
        "Error if flash does not have valid firmware in passive partition and hence rollback is not possible"@,
        "Error if current active firmware is still marked in pending validation state (ESP_OTA_IMG_PENDING_VERIFY), essentially first boot of firmware image post upgrade and hence firmware upgrade is not possible"@,
        "OK the required number of bits is set."@,
        "Error field is full."@,
        "Error repeated programming of programmed bits is strictly forbidden."@,
        "Error while a encoding operation."@,
        "Error not enough unused key blocks available"@,
        "Error. Burn or reset was done during a reading operation leads to damage read data. This error is internal to the efuse component and not returned by any public API."@,
        "No further error description"@,
        "No further error description"@,
        "WiFi driver was not installed by esp_wifi_init"@,
        "WiFi driver was not started by esp_wifi_start"@,
        "WiFi driver was not stopped by esp_wifi_stop"@,
        "WiFi interface error"@,
        "WiFi mode error"@,
        "WiFi internal state error"@,
        "WiFi internal control block of station or soft-AP error"@,
        "WiFi internal NVS module error"@,
        "MAC address is invalid"@,
        "SSID is invalid"@,
        "Password is invalid"@,
        "Timeout error"@,
        "WiFi is in sleep state(RF closed) and wakeup fail"@,
        "The caller would block"@,
        "Station still in disconnect status"@,
        "Failed to post the event to WiFi task"@,
        "Invalid WiFi state when init/deinit is called"@,
        "Returned when WiFi is stopping"@,
        "The WiFi connection is not associated"@,
        "The WiFi TX is disallowed"@,
        "no available flow id"@,
        "Timeout of receiving twt setup response frame, timeout times can be set during twt setup"@,
        "TWT setup frame tx failed"@,
        "The twt setup request was rejected by the AP"@,
        "Discard frame"@,
        "ROC op is in progress"@,
        "WPS registrar is not supported"@,
        "WPS type error"@,
        "WPS state machine is not initialized"@,
        "ESPNOW error number base."@,
        "ESPNOW is not initialized."@,
        "Invalid argument"@,
        "Out of memory"@,
        "ESPNOW peer list is full"@,
        "ESPNOW peer is not found"@,
        "Internal error"@,
        "ESPNOW peer has existed"@,
        "Interface error"@,
        "Channel error"@,
        "Generic failure during DPP Operation"@,
        "DPP Frame Tx failed OR not Acked"@,
        "Encountered invalid DPP Attribute"@,
        "DPP Auth response was not received in time"@,
        "Channel list given in esp_supp_dpp_bootstrap_gen() is not valid or too big"@,
        "DPP Configuration was not received in time"@,
        "No further error description"@,
        "No further error description"@,
        "No further error description"@,
        "No further error description"@,
        "No further error description"@,
        "No further error description"@,
        "No further error description"@,
        "No further error description"@,
        "No further error description"@,
        "No further error description"@,
        "No further error description"@,
        "No further error description"@,
        "No further error description"@,
        "No further error description"@,
        "No further error description"@,
        "No further error description"@,
        "No further error description"@,
        "No further error description"@,
        "No further error description"@,
        "No further error description"@,
        "No further error description"@,
        "No further error description"@,
        "No further error description"@,
        "No further error description"@,
        "No further error description"@,
        "No further error description"@,
        "No further error description"@,
        "No further error description"@,
        "No further error description"@,
        "No further error description"@,
        "No further error description"@,
        "No further error description"@,
        "No further error description"@,
        "No further error description"@,
        "No further error description"@,
        "No further error description"@,
        "No further error description"@,
        "No further error description"@,
        "No further error description"@,
        "No further error description"@,
        "No further error description"@,
        "No further error description"@,
        "No further error description"@,
        "No further error description"@,
        "No further error description"@,
        "No further error description"@,
        "The error exceeds the number of HTTP redirects"@,
        "Error open the HTTP connection"@,
        "Error write HTTP data"@,
        "Error read HTTP header from server"@,
        "There are no transport support for the input scheme"@,
        "HTTP connection hasn't been established yet"@,
        "Mapping of errno EAGAIN to esp_err_t"@,
        "Read FIN from peer and the connection closed"@,
        "HTTP 304 Not Modified, no update available"@,
        "HTTP 416 Range Not Satisfiable, requested range in header is incorrect"@,
        "HTTP data read timeout"@,
        "Incomplete data received, less than Content-Length or last chunk"@,
        "Error if hostname couldn't be resolved upon tls connection"@,
        "Failed to create socket"@,
        "Unsupported protocol family"@,
        "Failed to connect to host"@,
        "failed to set/get socket option"@,
        "new connection in esp_tls_low_level_conn connection timeouted"@,
        "No further error description"@,
        "No further error description"@,
        "TLS handshake timeout"@,
        "mbedtls parse certificates was partly successful"@,
        "mbedtls api returned error"@,
        "mbedtls api returned error"@,
        "mbedtls api returned error"@,
        "mbedtls api returned error"@,
        "mbedtls api returned error"@,
        "mbedtls api returned error"@,
        "mbedtls api returned error"@,
        "mbedtls api returned error"@,
        "mbedtls api returned failed"@,
        "mbedtls api returned failed"@,
        "mbedtls api returned failed"@,
        "mbedtls api returned failed"@,
        "mbedtls api returned failed"@,
        "No further error description"@,
        "All slots for registering URI handlers have been consumed"@,
        "URI handler with same method and target URI already registered"@,
        "Invalid request pointer"@,
        "Result string truncated"@,
        "Response header field larger than supported"@,
        "Error occurred while sending response packet"@,
        "Failed to dynamically allocate memory for resource"@,
        "Failed to launch server task/thread"@,
        "HMAC peripheral problem"@,
        "No further error description"@,
        "No further error description"@,
        "No further error description"@,
        "No further error description"@,
        "No further error description"@,
        "No further error description"@,
        "No further error description"@,
        "No further error description"@,
        "No further error description"@,
        "No further error description"@,
        "No further error description"@,
        "Connection has timed out"@,
        "Read FIN from peer and the connection has closed (in a clean way)"@,
        "Failed to connect to the peer"@,
        "Memory allocation failed"@,
        "HMAC Key required to generate the NVS encryption keys not found"@,
        "Provided eFuse block for HMAC key generation is already in use"@,
        "Failed to generate/write the HMAC key to eFuse"@,
        "Failed to derive the NVS encryption keys based on the HMAC-based scheme"@,
    ]
}

/// What the table holds for entry `i`: the code listed there has the name listed
/// there, and its description is that name in brackets, a colon, a space and the
/// explanation listed there.
pub open spec fn table_entry_matches(i: int) -> bool {
    let code = ESP_IDF_ERROR_CODES@[i];
    &&& spec_error_name(code) == Some(esp_idf_error_names()[i])
    &&& spec_error_info(code) == Some(
        seq!['['] + esp_idf_error_names()[i] + seq![']', ':', ' '] + esp_idf_error_texts()[i],
    )
}

/// Entries 0 to 15 of the table match the name and explanation lists.
proof fn lemma_table_entries_0(i: int)
    requires
        0 <= i < 16,
    ensures
        table_entry_matches(i),
{
    if i == 0 {
        assert(ESP_IDF_ERROR_CODES@[i] == -1);
        reveal_strlit("ESP_FAIL");
        reveal_strlit("[ESP_FAIL]: Generic esp_err_t code indicating failure");
        reveal_strlit("Generic esp_err_t code indicating failure");
        assert("[ESP_FAIL]: Generic esp_err_t code indicating failure"@ =~= seq!['['] + "ESP_FAIL"@ + seq![']', ':', ' '] + "Generic esp_err_t code indicating failure"@);
    } else if i == 1 {
        assert(ESP_IDF_ERROR_CODES@[i] == 0x101);
        reveal_strlit("ESP_ERR_NO_MEM");
        reveal_strlit("[ESP_ERR_NO_MEM]: Out of memory");
        reveal_strlit("Out of memory");
        assert("[ESP_ERR_NO_MEM]: Out of memory"@ =~= seq!['['] + "ESP_ERR_NO_MEM"@ + seq![']', ':', ' '] + "Out of memory"@);
    } else if i == 2 {
        assert(ESP_IDF_ERROR_CODES@[i] == 0x102);
        reveal_strlit("ESP_ERR_INVALID_ARG");
        reveal_strlit("[ESP_ERR_INVALID_ARG]: Invalid argument");
        reveal_strlit("Invalid argument");
        assert("[ESP_ERR_INVALID_ARG]: Invalid argument"@ =~= seq!['['] + "ESP_ERR_INVALID_ARG"@ + seq![']', ':', ' '] + "Invalid argument"@);
    } else if i == 3 {
        assert(ESP_IDF_ERROR_CODES@[i] == 0x103);
        reveal_strlit("ESP_ERR_INVALID_STATE");
        reveal_strlit("[ESP_ERR_INVALID_STATE]: Invalid state");
        reveal_strlit("Invalid state");
        assert("[ESP_ERR_INVALID_STATE]: Invalid state"@ =~= seq!['['] + "ESP_ERR_INVALID_STATE"@ + seq![']', ':', ' '] + "Invalid state"@);
    } else if i == 4 {
        assert(ESP_IDF_ERROR_CODES@[i] == 0x104);
        reveal_strlit("ESP_ERR_INVALID_SIZE");
        reveal_strlit("[ESP_ERR_INVALID_SIZE]: Invalid size");
        reveal_strlit("Invalid size");
        assert("[ESP_ERR_INVALID_SIZE]: Invalid size"@ =~= seq!['['] + "ESP_ERR_INVALID_SIZE"@ + seq![']', ':', ' '] + "Invalid size"@);
    } else if i == 5 {
        assert(ESP_IDF_ERROR_CODES@[i] == 0x105);
        reveal_strlit("ESP_ERR_NOT_FOUND");
        reveal_strlit("[ESP_ERR_NOT_FOUND]: Requested resource not found");
        reveal_strlit("Requested resource not found");
        assert("[ESP_ERR_NOT_FOUND]: Requested resource not found"@ =~= seq!['['] + "ESP_ERR_NOT_FOUND"@ + seq![']', ':', ' '] + "Requested resource not found"@);
    } else if i == 6 {
        assert(ESP_IDF_ERROR_CODES@[i] == 0x106);
        reveal_strlit("ESP_ERR_NOT_SUPPORTED");
        reveal_strlit("[ESP_ERR_NOT_SUPPORTED]: Operation or feature not supported");
        reveal_strlit("Operation or feature not supported");
        assert("[ESP_ERR_NOT_SUPPORTED]: Operation or feature not supported"@ =~= seq!['['] + "ESP_ERR_NOT_SUPPORTED"@ + seq![']', ':', ' '] + "Operation or feature not supported"@);
    } else if i == 7 {
        assert(ESP_IDF_ERROR_CODES@[i] == 0x107);
        reveal_strlit("ESP_ERR_TIMEOUT");
        reveal_strlit("[ESP_ERR_TIMEOUT]: Operation timed out");
        reveal_strlit("Operation timed out");
        assert("[ESP_ERR_TIMEOUT]: Operation timed out"@ =~= seq!['['] + "ESP_ERR_TIMEOUT"@ + seq![']', ':', ' '] + "Operation timed out"@);
    } else if i == 8 {
        assert(ESP_IDF_ERROR_CODES@[i] == 0x108);
        reveal_strlit("ESP_ERR_INVALID_RESPONSE");
        reveal_strlit("[ESP_ERR_INVALID_RESPONSE]: Received response was invalid");
        reveal_strlit("Received response was invalid");
        assert("[ESP_ERR_INVALID_RESPONSE]: Received response was invalid"@ =~= seq!['['] + "ESP_ERR_INVALID_RESPONSE"@ + seq![']', ':', ' '] + "Received response was invalid"@);
    } else if i == 9 {
        assert(ESP_IDF_ERROR_CODES@[i] == 0x109);
        reveal_strlit("ESP_ERR_INVALID_CRC");
        reveal_strlit("[ESP_ERR_INVALID_CRC]: CRC or checksum was invalid");
        reveal_strlit("CRC or checksum was invalid");
        assert("[ESP_ERR_INVALID_CRC]: CRC or checksum was invalid"@ =~= seq!['['] + "ESP_ERR_INVALID_CRC"@ + seq![']', ':', ' '] + "CRC or checksum was invalid"@);
    } else if i == 10 {
        assert(ESP_IDF_ERROR_CODES@[i] == 0x10a);
        reveal_strlit("ESP_ERR_INVALID_VERSION");
        reveal_strlit("[ESP_ERR_INVALID_VERSION]: Version was invalid");
        reveal_strlit("Version was invalid");
        assert("[ESP_ERR_INVALID_VERSION]: Version was invalid"@ =~= seq!['['] + "ESP_ERR_INVALID_VERSION"@ + seq![']', ':', ' '] + "Version was invalid"@);
    } else if i == 11 {
        assert(ESP_IDF_ERROR_CODES@[i] == 0x10b);
        reveal_strlit("ESP_ERR_INVALID_MAC");
        reveal_strlit("[ESP_ERR_INVALID_MAC]: MAC address was invalid");
        reveal_strlit("MAC address was invalid");
        assert("[ESP_ERR_INVALID_MAC]: MAC address was invalid"@ =~= seq!['['] + "ESP_ERR_INVALID_MAC"@ + seq![']', ':', ' '] + "MAC address was invalid"@);
    } else if i == 12 {
        assert(ESP_IDF_ERROR_CODES@[i] == 0x10c);
        reveal_strlit("ESP_ERR_NOT_FINISHED");
        reveal_strlit("[ESP_ERR_NOT_FINISHED]: Operation has not fully completed");
        reveal_strlit("Operation has not fully completed");
        assert("[ESP_ERR_NOT_FINISHED]: Operation has not fully completed"@ =~= seq!['['] + "ESP_ERR_NOT_FINISHED"@ + seq![']', ':', ' '] + "Operation has not fully completed"@);
    } else if i == 13 {
        assert(ESP_IDF_ERROR_CODES@[i] == 0x10d);
        reveal_strlit("ESP_ERR_NOT_ALLOWED");
        reveal_strlit("[ESP_ERR_NOT_ALLOWED]: Operation is not allowed");
        reveal_strlit("Operation is not allowed");
        assert("[ESP_ERR_NOT_ALLOWED]: Operation is not allowed"@ =~= seq!['['] + "ESP_ERR_NOT_ALLOWED"@ + seq![']', ':', ' '] + "Operation is not allowed"@);
    } else if i == 14 {
        assert(ESP_IDF_ERROR_CODES@[i] == 0x1101);
        reveal_strlit("ESP_ERR_NVS_NOT_INITIALIZED");
        reveal_strlit("[ESP_ERR_NVS_NOT_INITIALIZED]: The storage driver is not initialized");
        reveal_strlit("The storage driver is not initialized");
        assert("[ESP_ERR_NVS_NOT_INITIALIZED]: The storage driver is not initialized"@ =~= seq!['['] + "ESP_ERR_NVS_NOT_INITIALIZED"@ + seq![']', ':', ' '] + "The storage driver is not initialized"@);
    } else if i == 15 {
        assert(ESP_IDF_ERROR_CODES@[i] == 0x1102);
        reveal_strlit("ESP_ERR_NVS_NOT_FOUND");
        reveal_strlit("[ESP_ERR_NVS_NOT_FOUND]: A requested entry couldn't be found or namespace doesn’t exist yet and mode is NVS_READONLY");
        reveal_strlit("A requested entry couldn't be found or namespace doesn’t exist yet and mode is NVS_READONLY");
        assert("[ESP_ERR_NVS_NOT_FOUND]: A requested entry couldn't be found or namespace doesn’t exist yet and mode is NVS_READONLY"@ =~= seq!['['] + "ESP_ERR_NVS_NOT_FOUND"@ + seq![']', ':', ' '] + "A requested entry couldn't be found or namespace doesn’t exist yet and mode is NVS_READONLY"@);
    }
}

/// Entries 16 to 31 of the table match the name and explanation lists.
proof fn lemma_table_entries_1(i: int)
    requires
        16 <= i < 32,
    ensures
        table_entry_matches(i),
{
    if i == 16 {
        assert(ESP_IDF_ERROR_CODES@[i] == 0x1103);
        reveal_strlit("ESP_ERR_NVS_TYPE_MISMATCH");
        reveal_strlit("[ESP_ERR_NVS_TYPE_MISMATCH]: The type of set or get operation doesn't match the type of value stored in NVS");
        reveal_strlit("The type of set or get operation doesn't match the type of value stored in NVS");
        assert("[ESP_ERR_NVS_TYPE_MISMATCH]: The type of set or get operation doesn't match the type of value stored in NVS"@ =~= seq!['['] + "ESP_ERR_NVS_TYPE_MISMATCH"@ + seq![']', ':', ' '] + "The type of set or get operation doesn't match the type of value stored in NVS"@);
    } else if i == 17 {
        assert(ESP_IDF_ERROR_CODES@[i] == 0x1104);
        reveal_strlit("ESP_ERR_NVS_READ_ONLY");
        reveal_strlit("[ESP_ERR_NVS_READ_ONLY]: Storage handle was opened as read only");
        reveal_strlit("Storage handle was opened as read only");
        assert("[ESP_ERR_NVS_READ_ONLY]: Storage handle was opened as read only"@ =~= seq!['['] + "ESP_ERR_NVS_READ_ONLY"@ + seq![']', ':', ' '] + "Storage handle was opened as read only"@);
    } else if i == 18 {
        assert(ESP_IDF_ERROR_CODES@[i] == 0x1105);
        reveal_strlit("ESP_ERR_NVS_NOT_ENOUGH_SPACE");
        reveal_strlit("[ESP_ERR_NVS_NOT_ENOUGH_SPACE]: There is not enough space in the underlying storage to save the value");
        reveal_strlit("There is not enough space in the underlying storage to save the value");
        assert("[ESP_ERR_NVS_NOT_ENOUGH_SPACE]: There is not enough space in the underlying storage to save the value"@ =~= seq!['['] + "ESP_ERR_NVS_NOT_ENOUGH_SPACE"@ + seq![']', ':', ' '] + "There is not enough space in the underlying storage to save the value"@);
    } else if i == 19 {
        assert(ESP_IDF_ERROR_CODES@[i] == 0x1106);
        reveal_strlit("ESP_ERR_NVS_INVALID_NAME");
        reveal_strlit("[ESP_ERR_NVS_INVALID_NAME]: Namespace name doesn’t satisfy constraints");
        reveal_strlit("Namespace name doesn’t satisfy constraints");
        assert("[ESP_ERR_NVS_INVALID_NAME]: Namespace name doesn’t satisfy constraints"@ =~= seq!['['] + "ESP_ERR_NVS_INVALID_NAME"@ + seq![']', ':', ' '] + "Namespace name doesn’t satisfy constraints"@);
    } else if i == 20 {
        assert(ESP_IDF_ERROR_CODES@[i] == 0x1107);
        reveal_strlit("ESP_ERR_NVS_INVALID_HANDLE");
        reveal_strlit("[ESP_ERR_NVS_INVALID_HANDLE]: Handle has been closed or is NULL");
        reveal_strlit("Handle has been closed or is NULL");
        assert("[ESP_ERR_NVS_INVALID_HANDLE]: Handle has been closed or is NULL"@ =~= seq!['['] + "ESP_ERR_NVS_INVALID_HANDLE"@ + seq![']', ':', ' '] + "Handle has been closed or is NULL"@);
    } else if i == 21 {
        assert(ESP_IDF_ERROR_CODES@[i] == 0x1108);
        reveal_strlit("ESP_ERR_NVS_REMOVE_FAILED");
        reveal_strlit("[ESP_ERR_NVS_REMOVE_FAILED]: The value wasn’t updated because flash write operation has failed. The value was written however, and update will be finished after re-initialization of nvs, provided that flash operation doesn’t fail again.");
        reveal_strlit("The value wasn’t updated because flash write operation has failed. The value was written however, and update will be finished after re-initialization of nvs, provided that flash operation doesn’t fail again.");
        assert("[ESP_ERR_NVS_REMOVE_FAILED]: The value wasn’t updated because flash write operation has failed. The value was written however, and update will be finished after re-initialization of nvs, provided that flash operation doesn’t fail again."@ =~= seq!['['] + "ESP_ERR_NVS_REMOVE_FAILED"@ + seq![']', ':', ' '] + "The value wasn’t updated because flash write operation has failed. The value was written however, and update will be finished after re-initialization of nvs, provided that flash operation doesn’t fail again."@);
    } else if i == 22 {
        assert(ESP_IDF_ERROR_CODES@[i] == 0x1109);
        reveal_strlit("ESP_ERR_NVS_KEY_TOO_LONG");
        reveal_strlit("[ESP_ERR_NVS_KEY_TOO_LONG]: Key name is too long");
        reveal_strlit("Key name is too long");
        assert("[ESP_ERR_NVS_KEY_TOO_LONG]: Key name is too long"@ =~= seq!['['] + "ESP_ERR_NVS_KEY_TOO_LONG"@ + seq![']', ':', ' '] + "Key name is too long"@);
    } else if i == 23 {
        assert(ESP_IDF_ERROR_CODES@[i] == 0x110a);
        reveal_strlit("ESP_ERR_NVS_PAGE_FULL");
        reveal_strlit("[ESP_ERR_NVS_PAGE_FULL]: Internal error; never returned by nvs API functions");
        reveal_strlit("Internal error; never returned by nvs API functions");
        assert("[ESP_ERR_NVS_PAGE_FULL]: Internal error; never returned by nvs API functions"@ =~= seq!['['] + "ESP_ERR_NVS_PAGE_FULL"@ + seq![']', ':', ' '] + "Internal error; never returned by nvs API functions"@);
    } else if i == 24 {
        assert(ESP_IDF_ERROR_CODES@[i] == 0x110b);
        reveal_strlit("ESP_ERR_NVS_INVALID_STATE");
        reveal_strlit("[ESP_ERR_NVS_INVALID_STATE]: NVS is in an inconsistent state due to a previous error. Call nvs_flash_init and nvs_open again, then retry.");
        reveal_strlit("NVS is in an inconsistent state due to a previous error. Call nvs_flash_init and nvs_open again, then retry.");
        assert("[ESP_ERR_NVS_INVALID_STATE]: NVS is in an inconsistent state due to a previous error. Call nvs_flash_init and nvs_open again, then retry."@ =~= seq!['['] + "ESP_ERR_NVS_INVALID_STATE"@ + seq![']', ':', ' '] + "NVS is in an inconsistent state due to a previous error. Call nvs_flash_init and nvs_open again, then retry."@);
    } else if i == 25 {
        assert(ESP_IDF_ERROR_CODES@[i] == 0x110c);
        reveal_strlit("ESP_ERR_NVS_INVALID_LENGTH");
        reveal_strlit("[ESP_ERR_NVS_INVALID_LENGTH]: String or blob length is not sufficient to store data");
        reveal_strlit("String or blob length is not sufficient to store data");
        assert("[ESP_ERR_NVS_INVALID_LENGTH]: String or blob length is not sufficient to store data"@ =~= seq!['['] + "ESP_ERR_NVS_INVALID_LENGTH"@ + seq![']', ':', ' '] + "String or blob length is not sufficient to store data"@);
    } else if i == 26 {
        assert(ESP_IDF_ERROR_CODES@[i] == 0x110d);
        reveal_strlit("ESP_ERR_NVS_NO_FREE_PAGES");
        reveal_strlit("[ESP_ERR_NVS_NO_FREE_PAGES]: NVS partition doesn't contain any empty pages. This may happen if NVS partition was truncated. Erase the whole partition and call nvs_flash_init again.");
        reveal_strlit("NVS partition doesn't contain any empty pages. This may happen if NVS partition was truncated. Erase the whole partition and call nvs_flash_init again.");
        assert("[ESP_ERR_NVS_NO_FREE_PAGES]: NVS partition doesn't contain any empty pages. This may happen if NVS partition was truncated. Erase the whole partition and call nvs_flash_init again."@ =~= seq!['['] + "ESP_ERR_NVS_NO_FREE_PAGES"@ + seq![']', ':', ' '] + "NVS partition doesn't contain any empty pages. This may happen if NVS partition was truncated. Erase the whole partition and call nvs_flash_init again."@);
    } else if i == 27 {
        assert(ESP_IDF_ERROR_CODES@[i] == 0x110e);
        reveal_strlit("ESP_ERR_NVS_VALUE_TOO_LONG");
        reveal_strlit("[ESP_ERR_NVS_VALUE_TOO_LONG]: Value doesn't fit into the entry or string or blob length is longer than supported by the implementation");
        reveal_strlit("Value doesn't fit into the entry or string or blob length is longer than supported by the implementation");
        assert("[ESP_ERR_NVS_VALUE_TOO_LONG]: Value doesn't fit into the entry or string or blob length is longer than supported by the implementation"@ =~= seq!['['] + "ESP_ERR_NVS_VALUE_TOO_LONG"@ + seq![']', ':', ' '] + "Value doesn't fit into the entry or string or blob length is longer than supported by the implementation"@);
    } else if i == 28 {
        assert(ESP_IDF_ERROR_CODES@[i] == 0x110f);
        reveal_strlit("ESP_ERR_NVS_PART_NOT_FOUND");
        reveal_strlit("[ESP_ERR_NVS_PART_NOT_FOUND]: Partition with specified name is not found in the partition table");
        reveal_strlit("Partition with specified name is not found in the partition table");
        assert("[ESP_ERR_NVS_PART_NOT_FOUND]: Partition with specified name is not found in the partition table"@ =~= seq!['['] + "ESP_ERR_NVS_PART_NOT_FOUND"@ + seq![']', ':', ' '] + "Partition with specified name is not found in the partition table"@);
    } else if i == 29 {
        assert(ESP_IDF_ERROR_CODES@[i] == 0x1110);
        reveal_strlit("ESP_ERR_NVS_NEW_VERSION_FOUND");
        reveal_strlit("[ESP_ERR_NVS_NEW_VERSION_FOUND]: NVS partition contains data in new format and cannot be recognized by this version of code");
        reveal_strlit("NVS partition contains data in new format and cannot be recognized by this version of code");
        assert("[ESP_ERR_NVS_NEW_VERSION_FOUND]: NVS partition contains data in new format and cannot be recognized by this version of code"@ =~= seq!['['] + "ESP_ERR_NVS_NEW_VERSION_FOUND"@ + seq![']', ':', ' '] + "NVS partition contains data in new format and cannot be recognized by this version of code"@);
    } else if i == 30 {
        assert(ESP_IDF_ERROR_CODES@[i] == 0x1111);
        reveal_strlit("ESP_ERR_NVS_XTS_ENCR_FAILED");
        reveal_strlit("[ESP_ERR_NVS_XTS_ENCR_FAILED]: XTS encryption failed while writing NVS entry");
        reveal_strlit("XTS encryption failed while writing NVS entry");
        assert("[ESP_ERR_NVS_XTS_ENCR_FAILED]: XTS encryption failed while writing NVS entry"@ =~= seq!['['] + "ESP_ERR_NVS_XTS_ENCR_FAILED"@ + seq![']', ':', ' '] + "XTS encryption failed while writing NVS entry"@);
    } else if i == 31 {
        assert(ESP_IDF_ERROR_CODES@[i] == 0x1112);
        reveal_strlit("ESP_ERR_NVS_XTS_DECR_FAILED");
        reveal_strlit("[ESP_ERR_NVS_XTS_DECR_FAILED]: XTS decryption failed while reading NVS entry");
        reveal_strlit("XTS decryption failed while reading NVS entry");
        assert("[ESP_ERR_NVS_XTS_DECR_FAILED]: XTS decryption failed while reading NVS entry"@ =~= seq!['['] + "ESP_ERR_NVS_XTS_DECR_FAILED"@ + seq![']', ':', ' '] + "XTS decryption failed while reading NVS entry"@);
    }
}

/// Entries 32 to 47 of the table match the name and explanation lists.
proof fn lemma_table_entries_2(i: int)
    requires
        32 <= i < 48,
    ensures
        table_entry_matches(i),
{
    if i == 32 {
        assert(ESP_IDF_ERROR_CODES@[i] == 0x1113);
        reveal_strlit("ESP_ERR_NVS_XTS_CFG_FAILED");
        reveal_strlit("[ESP_ERR_NVS_XTS_CFG_FAILED]: XTS configuration setting failed");
        reveal_strlit("XTS configuration setting failed");
        assert("[ESP_ERR_NVS_XTS_CFG_FAILED]: XTS configuration setting failed"@ =~= seq!['['] + "ESP_ERR_NVS_XTS_CFG_FAILED"@ + seq![']', ':', ' '] + "XTS configuration setting failed"@);
    } else if i == 33 {
        assert(ESP_IDF_ERROR_CODES@[i] == 0x1114);
        reveal_strlit("ESP_ERR_NVS_XTS_CFG_NOT_FOUND");
        reveal_strlit("[ESP_ERR_NVS_XTS_CFG_NOT_FOUND]: XTS configuration not found");
        reveal_strlit("XTS configuration not found");
        assert("[ESP_ERR_NVS_XTS_CFG_NOT_FOUND]: XTS configuration not found"@ =~= seq!['['] + "ESP_ERR_NVS_XTS_CFG_NOT_FOUND"@ + seq![']', ':', ' '] + "XTS configuration not found"@);
    } else if i == 34 {
        assert(ESP_IDF_ERROR_CODES@[i] == 0x1115);
        reveal_strlit("ESP_ERR_NVS_ENCR_NOT_SUPPORTED");
        reveal_strlit("[ESP_ERR_NVS_ENCR_NOT_SUPPORTED]: NVS encryption is not supported in this version");
        reveal_strlit("NVS encryption is not supported in this version");
        assert("[ESP_ERR_NVS_ENCR_NOT_SUPPORTED]: NVS encryption is not supported in this version"@ =~= seq!['['] + "ESP_ERR_NVS_ENCR_NOT_SUPPORTED"@ + seq![']', ':', ' '] + "NVS encryption is not supported in this version"@);
    } else if i == 35 {
        assert(ESP_IDF_ERROR_CODES@[i] == 0x1116);
        reveal_strlit("ESP_ERR_NVS_KEYS_NOT_INITIALIZED");
        reveal_strlit("[ESP_ERR_NVS_KEYS_NOT_INITIALIZED]: NVS key partition is uninitialized");
        reveal_strlit("NVS key partition is uninitialized");
        assert("[ESP_ERR_NVS_KEYS_NOT_INITIALIZED]: NVS key partition is uninitialized"@ =~= seq!['['] + "ESP_ERR_NVS_KEYS_NOT_INITIALIZED"@ + seq![']', ':', ' '] + "NVS key partition is uninitialized"@);
    } else if i == 36 {
        assert(ESP_IDF_ERROR_CODES@[i] == 0x1117);
        reveal_strlit("ESP_ERR_NVS_CORRUPT_KEY_PART");
        reveal_strlit("[ESP_ERR_NVS_CORRUPT_KEY_PART]: NVS key partition is corrupt");
        reveal_strlit("NVS key partition is corrupt");
        assert("[ESP_ERR_NVS_CORRUPT_KEY_PART]: NVS key partition is corrupt"@ =~= seq!['['] + "ESP_ERR_NVS_CORRUPT_KEY_PART"@ + seq![']', ':', ' '] + "NVS key partition is corrupt"@);
    } else if i == 37 {
        assert(ESP_IDF_ERROR_CODES@[i] == 0x1118);
        reveal_strlit("ESP_ERR_NVS_CONTENT_DIFFERS");
        reveal_strlit("[ESP_ERR_NVS_CONTENT_DIFFERS]: Internal error; never returned by nvs API functions. NVS key is different in comparison");
        reveal_strlit("Internal error; never returned by nvs API functions. NVS key is different in comparison");
        assert("[ESP_ERR_NVS_CONTENT_DIFFERS]: Internal error; never returned by nvs API functions. NVS key is different in comparison"@ =~= seq!['['] + "ESP_ERR_NVS_CONTENT_DIFFERS"@ + seq![']', ':', ' '] + "Internal error; never returned by nvs API functions. NVS key is different in comparison"@);
    } else if i == 38 {
        assert(ESP_IDF_ERROR_CODES@[i] == 0x1119);
        reveal_strlit("ESP_ERR_NVS_WRONG_ENCRYPTION");
        reveal_strlit("[ESP_ERR_NVS_WRONG_ENCRYPTION]: NVS partition is marked as encrypted with generic flash encryption. This is forbidden since the NVS encryption works differently.");
        reveal_strlit("NVS partition is marked as encrypted with generic flash encryption. This is forbidden since the NVS encryption works differently.");
        assert("[ESP_ERR_NVS_WRONG_ENCRYPTION]: NVS partition is marked as encrypted with generic flash encryption. This is forbidden since the NVS encryption works differently."@ =~= seq!['['] + "ESP_ERR_NVS_WRONG_ENCRYPTION"@ + seq![']', ':', ' '] + "NVS partition is marked as encrypted with generic flash encryption. This is forbidden since the NVS encryption works differently."@);
    } else if i == 39 {
        assert(ESP_IDF_ERROR_CODES@[i] == 0x1201);
        reveal_strlit("ESP_ERR_ULP_SIZE_TOO_BIG");
        reveal_strlit("[ESP_ERR_ULP_SIZE_TOO_BIG]: Program doesn't fit into RTC memory reserved for the ULP");
        reveal_strlit("Program doesn't fit into RTC memory reserved for the ULP");
        assert("[ESP_ERR_ULP_SIZE_TOO_BIG]: Program doesn't fit into RTC memory reserved for the ULP"@ =~= seq!['['] + "ESP_ERR_ULP_SIZE_TOO_BIG"@ + seq![']', ':', ' '] + "Program doesn't fit into RTC memory reserved for the ULP"@);
    } else if i == 40 {
        assert(ESP_IDF_ERROR_CODES@[i] == 0x1202);
        reveal_strlit("ESP_ERR_ULP_INVALID_LOAD_ADDR");
        reveal_strlit("[ESP_ERR_ULP_INVALID_LOAD_ADDR]: Load address is outside of RTC memory reserved for the ULP");
        reveal_strlit("Load address is outside of RTC memory reserved for the ULP");
        assert("[ESP_ERR_ULP_INVALID_LOAD_ADDR]: Load address is outside of RTC memory reserved for the ULP"@ =~= seq!['['] + "ESP_ERR_ULP_INVALID_LOAD_ADDR"@ + seq![']', ':', ' '] + "Load address is outside of RTC memory reserved for the ULP"@);
    } else if i == 41 {
        assert(ESP_IDF_ERROR_CODES@[i] == 0x1203);
        reveal_strlit("ESP_ERR_ULP_DUPLICATE_LABEL");
        reveal_strlit("[ESP_ERR_ULP_DUPLICATE_LABEL]: More than one label with the same number was defined");
        reveal_strlit("More than one label with the same number was defined");
        assert("[ESP_ERR_ULP_DUPLICATE_LABEL]: More than one label with the same number was defined"@ =~= seq!['['] + "ESP_ERR_ULP_DUPLICATE_LABEL"@ + seq![']', ':', ' '] + "More than one label with the same number was defined"@);
    } else if i == 42 {
        assert(ESP_IDF_ERROR_CODES@[i] == 0x1204);
        reveal_strlit("ESP_ERR_ULP_UNDEFINED_LABEL");
        reveal_strlit("[ESP_ERR_ULP_UNDEFINED_LABEL]: Branch instructions references an undefined label");
        reveal_strlit("Branch instructions references an undefined label");
        assert("[ESP_ERR_ULP_UNDEFINED_LABEL]: Branch instructions references an undefined label"@ =~= seq!['['] + "ESP_ERR_ULP_UNDEFINED_LABEL"@ + seq![']', ':', ' '] + "Branch instructions references an undefined label"@);
    } else if i == 43 {
        assert(ESP_IDF_ERROR_CODES@[i] == 0x1205);
        reveal_strlit("ESP_ERR_ULP_BRANCH_OUT_OF_RANGE");
        reveal_strlit("[ESP_ERR_ULP_BRANCH_OUT_OF_RANGE]: Branch target is out of range of B instruction (try replacing with BX)");
        reveal_strlit("Branch target is out of range of B instruction (try replacing with BX)");
        assert("[ESP_ERR_ULP_BRANCH_OUT_OF_RANGE]: Branch target is out of range of B instruction (try replacing with BX)"@ =~= seq!['['] + "ESP_ERR_ULP_BRANCH_OUT_OF_RANGE"@ + seq![']', ':', ' '] + "Branch target is out of range of B instruction (try replacing with BX)"@);
    } else if i == 44 {
        assert(ESP_IDF_ERROR_CODES@[i] == 0x1501);
        reveal_strlit("ESP_ERR_OTA_PARTITION_CONFLICT");
        reveal_strlit("[ESP_ERR_OTA_PARTITION_CONFLICT]: Error if request was to write or erase the current running partition");
        reveal_strlit("Error if request was to write or erase the current running partition");
        assert("[ESP_ERR_OTA_PARTITION_CONFLICT]: Error if request was to write or erase the current running partition"@ =~= seq!['['] + "ESP_ERR_OTA_PARTITION_CONFLICT"@ + seq![']', ':', ' '] + "Error if request was to write or erase the current running partition"@);
    } else if i == 45 {
        assert(ESP_IDF_ERROR_CODES@[i] == 0x1502);
        reveal_strlit("ESP_ERR_OTA_SELECT_INFO_INVALID");
        reveal_strlit("[ESP_ERR_OTA_SELECT_INFO_INVALID]: Error if OTA data partition contains invalid content");
        reveal_strlit("Error if OTA data partition contains invalid content");
        assert("[ESP_ERR_OTA_SELECT_INFO_INVALID]: Error if OTA data partition contains invalid content"@ =~= seq!['['] + "ESP_ERR_OTA_SELECT_INFO_INVALID"@ + seq![']', ':', ' '] + "Error if OTA data partition contains invalid content"@);
    } else if i == 46 {
        assert(ESP_IDF_ERROR_CODES@[i] == 0x1503);
        reveal_strlit("ESP_ERR_OTA_VALIDATE_FAILED");
        reveal_strlit("[ESP_ERR_OTA_VALIDATE_FAILED]: Error if OTA app image is invalid");
        reveal_strlit("Error if OTA app image is invalid");
        assert("[ESP_ERR_OTA_VALIDATE_FAILED]: Error if OTA app image is invalid"@ =~= seq!['['] + "ESP_ERR_OTA_VALIDATE_FAILED"@ + seq![']', ':', ' '] + "Error if OTA app image is invalid"@);
    } else if i == 47 {
        assert(ESP_IDF_ERROR_CODES@[i] == 0x1504);
        reveal_strlit("ESP_ERR_OTA_SMALL_SEC_VER");
        reveal_strlit("[ESP_ERR_OTA_SMALL_SEC_VER]: Error if the firmware has a secure version less than the running firmware.");
        reveal_strlit("Error if the firmware has a secure version less than the running firmware.");
        assert("[ESP_ERR_OTA_SMALL_SEC_VER]: Error if the firmware has a secure version less than the running firmware."@ =~= seq!['['] + "ESP_ERR_OTA_SMALL_SEC_VER"@ + seq![']', ':', ' '] + "Error if the firmware has a secure version less than the running firmware."@);
    }
}

/// Entries 48 to 63 of the table match the name and explanation lists.
proof fn lemma_table_entries_3(i: int)
    requires
        48 <= i < 64,
    ensures
        table_entry_matches(i),
{
    if i == 48 {
        assert(ESP_IDF_ERROR_CODES@[i] == 0x1505);
        reveal_strlit("ESP_ERR_OTA_ROLLBACK_FAILED");
        reveal_strlit("[ESP_ERR_OTA_ROLLBACK_FAILED]: Error if flash does not have valid firmware in passive partition and hence rollback is not possible");
        reveal_strlit("Error if flash does not have valid firmware in passive partition and hence rollback is not possible");
        assert("[ESP_ERR_OTA_ROLLBACK_FAILED]: Error if flash does not have valid firmware in passive partition and hence rollback is not possible"@ =~= seq!['['] + "ESP_ERR_OTA_ROLLBACK_FAILED"@ + seq![']', ':', ' '] + "Error if flash does not have valid firmware in passive partition and hence rollback is not possible"@);
    } else if i == 49 {
        assert(ESP_IDF_ERROR_CODES@[i] == 0x1506);
        reveal_strlit("ESP_ERR_OTA_ROLLBACK_INVALID_STATE");
        reveal_strlit("[ESP_ERR_OTA_ROLLBACK_INVALID_STATE]: Error if current active firmware is still marked in pending validation state (ESP_OTA_IMG_PENDING_VERIFY), essentially first boot of firmware image post upgrade and hence firmware upgrade is not possible");
        reveal_strlit("Error if current active firmware is still marked in pending validation state (ESP_OTA_IMG_PENDING_VERIFY), essentially first boot of firmware image post upgrade and hence firmware upgrade is not possible");
        assert("[ESP_ERR_OTA_ROLLBACK_INVALID_STATE]: Error if current active firmware is still marked in pending validation state (ESP_OTA_IMG_PENDING_VERIFY), essentially first boot of firmware image post upgrade and hence firmware upgrade is not possible"@ =~= seq!['['] + "ESP_ERR_OTA_ROLLBACK_INVALID_STATE"@ + seq![']', ':', ' '] + "Error if current active firmware is still marked in pending validation state (ESP_OTA_IMG_PENDING_VERIFY), essentially first boot of firmware image post upgrade and hence firmware upgrade is not possible"@);
    } else if i == 50 {
        assert(ESP_IDF_ERROR_CODES@[i] == 0x1601);
        reveal_strlit("ESP_OK_EFUSE_CNT");
        reveal_strlit("[ESP_OK_EFUSE_CNT]: OK the required number of bits is set.");
        reveal_strlit("OK the required number of bits is set.");
        assert("[ESP_OK_EFUSE_CNT]: OK the required number of bits is set."@ =~= seq!['['] + "ESP_OK_EFUSE_CNT"@ + seq![']', ':', ' '] + "OK the required number of bits is set."@);
    } else if i == 51 {
        assert(ESP_IDF_ERROR_CODES@[i] == 0x1602);
        reveal_strlit("ESP_ERR_EFUSE_CNT_IS_FULL");
        reveal_strlit("[ESP_ERR_EFUSE_CNT_IS_FULL]: Error field is full.");
        reveal_strlit("Error field is full.");
        assert("[ESP_ERR_EFUSE_CNT_IS_FULL]: Error field is full."@ =~= seq!['['] + "ESP_ERR_EFUSE_CNT_IS_FULL"@ + seq![']', ':', ' '] + "Error field is full."@);
    } else if i == 52 {
        assert(ESP_IDF_ERROR_CODES@[i] == 0x1603);
        reveal_strlit("ESP_ERR_EFUSE_REPEATED_PROG");
        reveal_strlit("[ESP_ERR_EFUSE_REPEATED_PROG]: Error repeated programming of programmed bits is strictly forbidden.");
        reveal_strlit("Error repeated programming of programmed bits is strictly forbidden.");
        assert("[ESP_ERR_EFUSE_REPEATED_PROG]: Error repeated programming of programmed bits is strictly forbidden."@ =~= seq!['['] + "ESP_ERR_EFUSE_REPEATED_PROG"@ + seq![']', ':', ' '] + "Error repeated programming of programmed bits is strictly forbidden."@);
    } else if i == 53 {
        assert(ESP_IDF_ERROR_CODES@[i] == 0x1604);
        reveal_strlit("ESP_ERR_CODING");
        reveal_strlit("[ESP_ERR_CODING]: Error while a encoding operation.");
        reveal_strlit("Error while a encoding operation.");
        assert("[ESP_ERR_CODING]: Error while a encoding operation."@ =~= seq!['['] + "ESP_ERR_CODING"@ + seq![']', ':', ' '] + "Error while a encoding operation."@);
    } else if i == 54 {
        assert(ESP_IDF_ERROR_CODES@[i] == 0x1605);
        reveal_strlit("ESP_ERR_NOT_ENOUGH_UNUSED_KEY_BLOCKS");
        reveal_strlit("[ESP_ERR_NOT_ENOUGH_UNUSED_KEY_BLOCKS]: Error not enough unused key blocks available");
        reveal_strlit("Error not enough unused key blocks available");
        assert("[ESP_ERR_NOT_ENOUGH_UNUSED_KEY_BLOCKS]: Error not enough unused key blocks available"@ =~= seq!['['] + "ESP_ERR_NOT_ENOUGH_UNUSED_KEY_BLOCKS"@ + seq![']', ':', ' '] + "Error not enough unused key blocks available"@);
    } else if i == 55 {
        assert(ESP_IDF_ERROR_CODES@[i] == 0x1606);
        reveal_strlit("ESP_ERR_DAMAGED_READING");
        reveal_strlit("[ESP_ERR_DAMAGED_READING]: Error. Burn or reset was done during a reading operation leads to damage read data. This error is internal to the efuse component and not returned by any public API.");
        reveal_strlit("Error. Burn or reset was done during a reading operation leads to damage read data. This error is internal to the efuse component and not returned by any public API.");
        assert("[ESP_ERR_DAMAGED_READING]: Error. Burn or reset was done during a reading operation leads to damage read data. This error is internal to the efuse component and not returned by any public API."@ =~= seq!['['] + "ESP_ERR_DAMAGED_READING"@ + seq![']', ':', ' '] + "Error. Burn or reset was done during a reading operation leads to damage read data. This error is internal to the efuse component and not returned by any public API."@);
    } else if i == 56 {
        assert(ESP_IDF_ERROR_CODES@[i] == 0x2001);
        reveal_strlit("ESP_ERR_IMAGE_FLASH_FAIL");
        reveal_strlit("[ESP_ERR_IMAGE_FLASH_FAIL]: No further error description");
        reveal_strlit("No further error description");
        assert("[ESP_ERR_IMAGE_FLASH_FAIL]: No further error description"@ =~= seq!['['] + "ESP_ERR_IMAGE_FLASH_FAIL"@ + seq![']', ':', ' '] + "No further error description"@);
    } else if i == 57 {
        assert(ESP_IDF_ERROR_CODES@[i] == 0x2002);
        reveal_strlit("ESP_ERR_IMAGE_INVALID");
        reveal_strlit("[ESP_ERR_IMAGE_INVALID]: No further error description");
        reveal_strlit("No further error description");
        assert("[ESP_ERR_IMAGE_INVALID]: No further error description"@ =~= seq!['['] + "ESP_ERR_IMAGE_INVALID"@ + seq![']', ':', ' '] + "No further error description"@);
    } else if i == 58 {
        assert(ESP_IDF_ERROR_CODES@[i] == 0x3001);
        reveal_strlit("ESP_ERR_WIFI_NOT_INIT");
        reveal_strlit("[ESP_ERR_WIFI_NOT_INIT]: WiFi driver was not installed by esp_wifi_init");
        reveal_strlit("WiFi driver was not installed by esp_wifi_init");
        assert("[ESP_ERR_WIFI_NOT_INIT]: WiFi driver was not installed by esp_wifi_init"@ =~= seq!['['] + "ESP_ERR_WIFI_NOT_INIT"@ + seq![']', ':', ' '] + "WiFi driver was not installed by esp_wifi_init"@);
    } else if i == 59 {
        assert(ESP_IDF_ERROR_CODES@[i] == 0x3002);
        reveal_strlit("ESP_ERR_WIFI_NOT_STARTED");
        reveal_strlit("[ESP_ERR_WIFI_NOT_STARTED]: WiFi driver was not started by esp_wifi_start");
        reveal_strlit("WiFi driver was not started by esp_wifi_start");
        assert("[ESP_ERR_WIFI_NOT_STARTED]: WiFi driver was not started by esp_wifi_start"@ =~= seq!['['] + "ESP_ERR_WIFI_NOT_STARTED"@ + seq![']', ':', ' '] + "WiFi driver was not started by esp_wifi_start"@);
    } else if i == 60 {
        assert(ESP_IDF_ERROR_CODES@[i] == 0x3003);
        reveal_strlit("ESP_ERR_WIFI_NOT_STOPPED");
        reveal_strlit("[ESP_ERR_WIFI_NOT_STOPPED]: WiFi driver was not stopped by esp_wifi_stop");
        reveal_strlit("WiFi driver was not stopped by esp_wifi_stop");
        assert("[ESP_ERR_WIFI_NOT_STOPPED]: WiFi driver was not stopped by esp_wifi_stop"@ =~= seq!['['] + "ESP_ERR_WIFI_NOT_STOPPED"@ + seq![']', ':', ' '] + "WiFi driver was not stopped by esp_wifi_stop"@);
    } else if i == 61 {
        assert(ESP_IDF_ERROR_CODES@[i] == 0x3004);
        reveal_strlit("ESP_ERR_WIFI_IF");
        reveal_strlit("[ESP_ERR_WIFI_IF]: WiFi interface error");
        reveal_strlit("WiFi interface error");
        assert("[ESP_ERR_WIFI_IF]: WiFi interface error"@ =~= seq!['['] + "ESP_ERR_WIFI_IF"@ + seq![']', ':', ' '] + "WiFi interface error"@);
    } else if i == 62 {
        assert(ESP_IDF_ERROR_CODES@[i] == 0x3005);
        reveal_strlit("ESP_ERR_WIFI_MODE");
        reveal_strlit("[ESP_ERR_WIFI_MODE]: WiFi mode error");
        reveal_strlit("WiFi mode error");
        assert("[ESP_ERR_WIFI_MODE]: WiFi mode error"@ =~= seq!['['] + "ESP_ERR_WIFI_MODE"@ + seq![']', ':', ' '] + "WiFi mode error"@);
    } else if i == 63 {
        assert(ESP_IDF_ERROR_CODES@[i] == 0x3006);
        reveal_strlit("ESP_ERR_WIFI_STATE");
        reveal_strlit("[ESP_ERR_WIFI_STATE]: WiFi internal state error");
        reveal_strlit("WiFi internal state error");
        assert("[ESP_ERR_WIFI_STATE]: WiFi internal state error"@ =~= seq!['['] + "ESP_ERR_WIFI_STATE"@ + seq![']', ':', ' '] + "WiFi internal state error"@);
    }
}

/// Entries 64 to 79 of the table match the name and explanation lists.
proof fn lemma_table_entries_4(i: int)
    requires
        64 <= i < 80,
    ensures
        table_entry_matches(i),
{
    if i == 64 {
        assert(ESP_IDF_ERROR_CODES@[i] == 0x3007);
        reveal_strlit("ESP_ERR_WIFI_CONN");
        reveal_strlit("[ESP_ERR_WIFI_CONN]: WiFi internal control block of station or soft-AP error");
        reveal_strlit("WiFi internal control block of station or soft-AP error");
        assert("[ESP_ERR_WIFI_CONN]: WiFi internal control block of station or soft-AP error"@ =~= seq!['['] + "ESP_ERR_WIFI_CONN"@ + seq![']', ':', ' '] + "WiFi internal control block of station or soft-AP error"@);
    } else if i == 65 {
        assert(ESP_IDF_ERROR_CODES@[i] == 0x3008);
        reveal_strlit("ESP_ERR_WIFI_NVS");
        reveal_strlit("[ESP_ERR_WIFI_NVS]: WiFi internal NVS module error");
        reveal_strlit("WiFi internal NVS module error");
        assert("[ESP_ERR_WIFI_NVS]: WiFi internal NVS module error"@ =~= seq!['['] + "ESP_ERR_WIFI_NVS"@ + seq![']', ':', ' '] + "WiFi internal NVS module error"@);
    } else if i == 66 {
        assert(ESP_IDF_ERROR_CODES@[i] == 0x3009);
        reveal_strlit("ESP_ERR_WIFI_MAC");
        reveal_strlit("[ESP_ERR_WIFI_MAC]: MAC address is invalid");
        reveal_strlit("MAC address is invalid");
        assert("[ESP_ERR_WIFI_MAC]: MAC address is invalid"@ =~= seq!['['] + "ESP_ERR_WIFI_MAC"@ + seq![']', ':', ' '] + "MAC address is invalid"@);
    } else if i == 67 {
        assert(ESP_IDF_ERROR_CODES@[i] == 0x300a);
        reveal_strlit("ESP_ERR_WIFI_SSID");
        reveal_strlit("[ESP_ERR_WIFI_SSID]: SSID is invalid");
        reveal_strlit("SSID is invalid");
        assert("[ESP_ERR_WIFI_SSID]: SSID is invalid"@ =~= seq!['['] + "ESP_ERR_WIFI_SSID"@ + seq![']', ':', ' '] + "SSID is invalid"@);
    } else if i == 68 {
        assert(ESP_IDF_ERROR_CODES@[i] == 0x300b);
        reveal_strlit("ESP_ERR_WIFI_PASSWORD");
        reveal_strlit("[ESP_ERR_WIFI_PASSWORD]: Password is invalid");
        reveal_strlit("Password is invalid");
        assert("[ESP_ERR_WIFI_PASSWORD]: Password is invalid"@ =~= seq!['['] + "ESP_ERR_WIFI_PASSWORD"@ + seq![']', ':', ' '] + "Password is invalid"@);
    } else if i == 69 {
        assert(ESP_IDF_ERROR_CODES@[i] == 0x300c);
        reveal_strlit("ESP_ERR_WIFI_TIMEOUT");
        reveal_strlit("[ESP_ERR_WIFI_TIMEOUT]: Timeout error");
        reveal_strlit("Timeout error");
        assert("[ESP_ERR_WIFI_TIMEOUT]: Timeout error"@ =~= seq!['['] + "ESP_ERR_WIFI_TIMEOUT"@ + seq![']', ':', ' '] + "Timeout error"@);
    } else if i == 70 {
        assert(ESP_IDF_ERROR_CODES@[i] == 0x300d);
        reveal_strlit("ESP_ERR_WIFI_WAKE_FAIL");
        reveal_strlit("[ESP_ERR_WIFI_WAKE_FAIL]: WiFi is in sleep state(RF closed) and wakeup fail");
        reveal_strlit("WiFi is in sleep state(RF closed) and wakeup fail");
        assert("[ESP_ERR_WIFI_WAKE_FAIL]: WiFi is in sleep state(RF closed) and wakeup fail"@ =~= seq!['['] + "ESP_ERR_WIFI_WAKE_FAIL"@ + seq![']', ':', ' '] + "WiFi is in sleep state(RF closed) and wakeup fail"@);
    } else if i == 71 {
        assert(ESP_IDF_ERROR_CODES@[i] == 0x300e);
        reveal_strlit("ESP_ERR_WIFI_WOULD_BLOCK");
        reveal_strlit("[ESP_ERR_WIFI_WOULD_BLOCK]: The caller would block");
        reveal_strlit("The caller would block");
        assert("[ESP_ERR_WIFI_WOULD_BLOCK]: The caller would block"@ =~= seq!['['] + "ESP_ERR_WIFI_WOULD_BLOCK"@ + seq![']', ':', ' '] + "The caller would block"@);
    } else if i == 72 {
        assert(ESP_IDF_ERROR_CODES@[i] == 0x300f);
        reveal_strlit("ESP_ERR_WIFI_NOT_CONNECT");
        reveal_strlit("[ESP_ERR_WIFI_NOT_CONNECT]: Station still in disconnect status");
        reveal_strlit("Station still in disconnect status");
        assert("[ESP_ERR_WIFI_NOT_CONNECT]: Station still in disconnect status"@ =~= seq!['['] + "ESP_ERR_WIFI_NOT_CONNECT"@ + seq![']', ':', ' '] + "Station still in disconnect status"@);
    } else if i == 73 {
        assert(ESP_IDF_ERROR_CODES@[i] == 0x3012);
        reveal_strlit("ESP_ERR_WIFI_POST");
        reveal_strlit("[ESP_ERR_WIFI_POST]: Failed to post the event to WiFi task");
        reveal_strlit("Failed to post the event to WiFi task");
        assert("[ESP_ERR_WIFI_POST]: Failed to post the event to WiFi task"@ =~= seq!['['] + "ESP_ERR_WIFI_POST"@ + seq![']', ':', ' '] + "Failed to post the event to WiFi task"@);
    } else if i == 74 {
        assert(ESP_IDF_ERROR_CODES@[i] == 0x3013);
        reveal_strlit("ESP_ERR_WIFI_INIT_STATE");
        reveal_strlit("[ESP_ERR_WIFI_INIT_STATE]: Invalid WiFi state when init/deinit is called");
        reveal_strlit("Invalid WiFi state when init/deinit is called");
        assert("[ESP_ERR_WIFI_INIT_STATE]: Invalid WiFi state when init/deinit is called"@ =~= seq!['['] + "ESP_ERR_WIFI_INIT_STATE"@ + seq![']', ':', ' '] + "Invalid WiFi state when init/deinit is called"@);
    } else if i == 75 {
        assert(ESP_IDF_ERROR_CODES@[i] == 0x3014);
        reveal_strlit("ESP_ERR_WIFI_STOP_STATE");
        reveal_strlit("[ESP_ERR_WIFI_STOP_STATE]: Returned when WiFi is stopping");
        reveal_strlit("Returned when WiFi is stopping");
        assert("[ESP_ERR_WIFI_STOP_STATE]: Returned when WiFi is stopping"@ =~= seq!['['] + "ESP_ERR_WIFI_STOP_STATE"@ + seq![']', ':', ' '] + "Returned when WiFi is stopping"@);
    } else if i == 76 {
        assert(ESP_IDF_ERROR_CODES@[i] == 0x3015);
        reveal_strlit("ESP_ERR_WIFI_NOT_ASSOC");
        reveal_strlit("[ESP_ERR_WIFI_NOT_ASSOC]: The WiFi connection is not associated");
        reveal_strlit("The WiFi connection is not associated");
        assert("[ESP_ERR_WIFI_NOT_ASSOC]: The WiFi connection is not associated"@ =~= seq!['['] + "ESP_ERR_WIFI_NOT_ASSOC"@ + seq![']', ':', ' '] + "The WiFi connection is not associated"@);
    } else if i == 77 {
        assert(ESP_IDF_ERROR_CODES@[i] == 0x3016);
        reveal_strlit("ESP_ERR_WIFI_TX_DISALLOW");
        reveal_strlit("[ESP_ERR_WIFI_TX_DISALLOW]: The WiFi TX is disallowed");
        reveal_strlit("The WiFi TX is disallowed");
        assert("[ESP_ERR_WIFI_TX_DISALLOW]: The WiFi TX is disallowed"@ =~= seq!['['] + "ESP_ERR_WIFI_TX_DISALLOW"@ + seq![']', ':', ' '] + "The WiFi TX is disallowed"@);
    } else if i == 78 {
        assert(ESP_IDF_ERROR_CODES@[i] == 0x3017);
        reveal_strlit("ESP_ERR_WIFI_TWT_FULL");
        reveal_strlit("[ESP_ERR_WIFI_TWT_FULL]: no available flow id");
        reveal_strlit("no available flow id");
        assert("[ESP_ERR_WIFI_TWT_FULL]: no available flow id"@ =~= seq!['['] + "ESP_ERR_WIFI_TWT_FULL"@ + seq![']', ':', ' '] + "no available flow id"@);
    } else if i == 79 {
        assert(ESP_IDF_ERROR_CODES@[i] == 0x3018);
        reveal_strlit("ESP_ERR_WIFI_TWT_SETUP_TIMEOUT");
        reveal_strlit("[ESP_ERR_WIFI_TWT_SETUP_TIMEOUT]: Timeout of receiving twt setup response frame, timeout times can be set during twt setup");
        reveal_strlit("Timeout of receiving twt setup response frame, timeout times can be set during twt setup");
        assert("[ESP_ERR_WIFI_TWT_SETUP_TIMEOUT]: Timeout of receiving twt setup response frame, timeout times can be set during twt setup"@ =~= seq!['['] + "ESP_ERR_WIFI_TWT_SETUP_TIMEOUT"@ + seq![']', ':', ' '] + "Timeout of receiving twt setup response frame, timeout times can be set during twt setup"@);
    }
}

/// Entries 80 to 95 of the table match the name and explanation lists.
proof fn lemma_table_entries_5(i: int)
    requires
        80 <= i < 96,
    ensures
        table_entry_matches(i),
{
    if i == 80 {
        assert(ESP_IDF_ERROR_CODES@[i] == 0x3019);
        reveal_strlit("ESP_ERR_WIFI_TWT_SETUP_TXFAIL");
        reveal_strlit("[ESP_ERR_WIFI_TWT_SETUP_TXFAIL]: TWT setup frame tx failed");
        reveal_strlit("TWT setup frame tx failed");
        assert("[ESP_ERR_WIFI_TWT_SETUP_TXFAIL]: TWT setup frame tx failed"@ =~= seq!['['] + "ESP_ERR_WIFI_TWT_SETUP_TXFAIL"@ + seq![']', ':', ' '] + "TWT setup frame tx failed"@);
    } else if i == 81 {
        assert(ESP_IDF_ERROR_CODES@[i] == 0x301a);
        reveal_strlit("ESP_ERR_WIFI_TWT_SETUP_REJECT");
        reveal_strlit("[ESP_ERR_WIFI_TWT_SETUP_REJECT]: The twt setup request was rejected by the AP");
        reveal_strlit("The twt setup request was rejected by the AP");
        assert("[ESP_ERR_WIFI_TWT_SETUP_REJECT]: The twt setup request was rejected by the AP"@ =~= seq!['['] + "ESP_ERR_WIFI_TWT_SETUP_REJECT"@ + seq![']', ':', ' '] + "The twt setup request was rejected by the AP"@);
    } else if i == 82 {
        assert(ESP_IDF_ERROR_CODES@[i] == 0x301b);
        reveal_strlit("ESP_ERR_WIFI_DISCARD");
        reveal_strlit("[ESP_ERR_WIFI_DISCARD]: Discard frame");
        reveal_strlit("Discard frame");
        assert("[ESP_ERR_WIFI_DISCARD]: Discard frame"@ =~= seq!['['] + "ESP_ERR_WIFI_DISCARD"@ + seq![']', ':', ' '] + "Discard frame"@);
    } else if i == 83 {
        assert(ESP_IDF_ERROR_CODES@[i] == 0x301c);
        reveal_strlit("ESP_ERR_WIFI_ROC_IN_PROGRESS");
        reveal_strlit("[ESP_ERR_WIFI_ROC_IN_PROGRESS]: ROC op is in progress");
        reveal_strlit("ROC op is in progress");
        assert("[ESP_ERR_WIFI_ROC_IN_PROGRESS]: ROC op is in progress"@ =~= seq!['['] + "ESP_ERR_WIFI_ROC_IN_PROGRESS"@ + seq![']', ':', ' '] + "ROC op is in progress"@);
    } else if i == 84 {
        assert(ESP_IDF_ERROR_CODES@[i] == 0x3033);
        reveal_strlit("ESP_ERR_WIFI_REGISTRAR");
        reveal_strlit("[ESP_ERR_WIFI_REGISTRAR]: WPS registrar is not supported");
        reveal_strlit("WPS registrar is not supported");
        assert("[ESP_ERR_WIFI_REGISTRAR]: WPS registrar is not supported"@ =~= seq!['['] + "ESP_ERR_WIFI_REGISTRAR"@ + seq![']', ':', ' '] + "WPS registrar is not supported"@);
    } else if i == 85 {
        assert(ESP_IDF_ERROR_CODES@[i] == 0x3034);
        reveal_strlit("ESP_ERR_WIFI_WPS_TYPE");
        reveal_strlit("[ESP_ERR_WIFI_WPS_TYPE]: WPS type error");
        reveal_strlit("WPS type error");
        assert("[ESP_ERR_WIFI_WPS_TYPE]: WPS type error"@ =~= seq!['['] + "ESP_ERR_WIFI_WPS_TYPE"@ + seq![']', ':', ' '] + "WPS type error"@);
    } else if i == 86 {
        assert(ESP_IDF_ERROR_CODES@[i] == 0x3035);
        reveal_strlit("ESP_ERR_WIFI_WPS_SM");
        reveal_strlit("[ESP_ERR_WIFI_WPS_SM]: WPS state machine is not initialized");
        reveal_strlit("WPS state machine is not initialized");
        assert("[ESP_ERR_WIFI_WPS_SM]: WPS state machine is not initialized"@ =~= seq!['['] + "ESP_ERR_WIFI_WPS_SM"@ + seq![']', ':', ' '] + "WPS state machine is not initialized"@);
    } else if i == 87 {
        assert(ESP_IDF_ERROR_CODES@[i] == 0x3064);
        reveal_strlit("ESP_ERR_ESPNOW_BASE");
        reveal_strlit("[ESP_ERR_ESPNOW_BASE]: ESPNOW error number base.");
        reveal_strlit("ESPNOW error number base.");
        assert("[ESP_ERR_ESPNOW_BASE]: ESPNOW error number base."@ =~= seq!['['] + "ESP_ERR_ESPNOW_BASE"@ + seq![']', ':', ' '] + "ESPNOW error number base."@);
    } else if i == 88 {
        assert(ESP_IDF_ERROR_CODES@[i] == 0x3065);
        reveal_strlit("ESP_ERR_ESPNOW_NOT_INIT");
        reveal_strlit("[ESP_ERR_ESPNOW_NOT_INIT]: ESPNOW is not initialized.");
        reveal_strlit("ESPNOW is not initialized.");
        assert("[ESP_ERR_ESPNOW_NOT_INIT]: ESPNOW is not initialized."@ =~= seq!['['] + "ESP_ERR_ESPNOW_NOT_INIT"@ + seq![']', ':', ' '] + "ESPNOW is not initialized."@);
    } else if i == 89 {
        assert(ESP_IDF_ERROR_CODES@[i] == 0x3066);
        reveal_strlit("ESP_ERR_ESPNOW_ARG");
        reveal_strlit("[ESP_ERR_ESPNOW_ARG]: Invalid argument");
        reveal_strlit("Invalid argument");
        assert("[ESP_ERR_ESPNOW_ARG]: Invalid argument"@ =~= seq!['['] + "ESP_ERR_ESPNOW_ARG"@ + seq![']', ':', ' '] + "Invalid argument"@);
    } else if i == 90 {
        assert(ESP_IDF_ERROR_CODES@[i] == 0x3067);
        reveal_strlit("ESP_ERR_ESPNOW_NO_MEM");
        reveal_strlit("[ESP_ERR_ESPNOW_NO_MEM]: Out of memory");
        reveal_strlit("Out of memory");
        assert("[ESP_ERR_ESPNOW_NO_MEM]: Out of memory"@ =~= seq!['['] + "ESP_ERR_ESPNOW_NO_MEM"@ + seq![']', ':', ' '] + "Out of memory"@);
    } else if i == 91 {
        assert(ESP_IDF_ERROR_CODES@[i] == 0x3068);
        reveal_strlit("ESP_ERR_ESPNOW_FULL");
        reveal_strlit("[ESP_ERR_ESPNOW_FULL]: ESPNOW peer list is full");
        reveal_strlit("ESPNOW peer list is full");
        assert("[ESP_ERR_ESPNOW_FULL]: ESPNOW peer list is full"@ =~= seq!['['] + "ESP_ERR_ESPNOW_FULL"@ + seq![']', ':', ' '] + "ESPNOW peer list is full"@);
    } else if i == 92 {
        assert(ESP_IDF_ERROR_CODES@[i] == 0x3069);
        reveal_strlit("ESP_ERR_ESPNOW_NOT_FOUND");
        reveal_strlit("[ESP_ERR_ESPNOW_NOT_FOUND]: ESPNOW peer is not found");
        reveal_strlit("ESPNOW peer is not found");
        assert("[ESP_ERR_ESPNOW_NOT_FOUND]: ESPNOW peer is not found"@ =~= seq!['['] + "ESP_ERR_ESPNOW_NOT_FOUND"@ + seq![']', ':', ' '] + "ESPNOW peer is not found"@);
    } else if i == 93 {
        assert(ESP_IDF_ERROR_CODES@[i] == 0x306a);
        reveal_strlit("ESP_ERR_ESPNOW_INTERNAL");
        reveal_strlit("[ESP_ERR_ESPNOW_INTERNAL]: Internal error");
        reveal_strlit("Internal error");
        assert("[ESP_ERR_ESPNOW_INTERNAL]: Internal error"@ =~= seq!['['] + "ESP_ERR_ESPNOW_INTERNAL"@ + seq![']', ':', ' '] + "Internal error"@);
    } else if i == 94 {
        assert(ESP_IDF_ERROR_CODES@[i] == 0x306b);
        reveal_strlit("ESP_ERR_ESPNOW_EXIST");
        reveal_strlit("[ESP_ERR_ESPNOW_EXIST]: ESPNOW peer has existed");
        reveal_strlit("ESPNOW peer has existed");
        assert("[ESP_ERR_ESPNOW_EXIST]: ESPNOW peer has existed"@ =~= seq!['['] + "ESP_ERR_ESPNOW_EXIST"@ + seq![']', ':', ' '] + "ESPNOW peer has existed"@);
    } else if i == 95 {
        assert(ESP_IDF_ERROR_CODES@[i] == 0x306c);
        reveal_strlit("ESP_ERR_ESPNOW_IF");
        reveal_strlit("[ESP_ERR_ESPNOW_IF]: Interface error");
        reveal_strlit("Interface error");
        assert("[ESP_ERR_ESPNOW_IF]: Interface error"@ =~= seq!['['] + "ESP_ERR_ESPNOW_IF"@ + seq![']', ':', ' '] + "Interface error"@);
    }
}

/// Entries 96 to 111 of the table match the name and explanation lists.
proof fn lemma_table_entries_6(i: int)
    requires
        96 <= i < 112,
    ensures
        table_entry_matches(i),
{
    if i == 96 {
        assert(ESP_IDF_ERROR_CODES@[i] == 0x306d);
        reveal_strlit("ESP_ERR_ESPNOW_CHAN");
        reveal_strlit("[ESP_ERR_ESPNOW_CHAN]: Channel error");
        reveal_strlit("Channel error");
        assert("[ESP_ERR_ESPNOW_CHAN]: Channel error"@ =~= seq!['['] + "ESP_ERR_ESPNOW_CHAN"@ + seq![']', ':', ' '] + "Channel error"@);
    } else if i == 97 {
        assert(ESP_IDF_ERROR_CODES@[i] == 0x3097);
        reveal_strlit("ESP_ERR_DPP_FAILURE");
        reveal_strlit("[ESP_ERR_DPP_FAILURE]: Generic failure during DPP Operation");
        reveal_strlit("Generic failure during DPP Operation");
        assert("[ESP_ERR_DPP_FAILURE]: Generic failure during DPP Operation"@ =~= seq!['['] + "ESP_ERR_DPP_FAILURE"@ + seq![']', ':', ' '] + "Generic failure during DPP Operation"@);
    } else if i == 98 {
        assert(ESP_IDF_ERROR_CODES@[i] == 0x3098);
        reveal_strlit("ESP_ERR_DPP_TX_FAILURE");
        reveal_strlit("[ESP_ERR_DPP_TX_FAILURE]: DPP Frame Tx failed OR not Acked");
        reveal_strlit("DPP Frame Tx failed OR not Acked");
        assert("[ESP_ERR_DPP_TX_FAILURE]: DPP Frame Tx failed OR not Acked"@ =~= seq!['['] + "ESP_ERR_DPP_TX_FAILURE"@ + seq![']', ':', ' '] + "DPP Frame Tx failed OR not Acked"@);
    } else if i == 99 {
        assert(ESP_IDF_ERROR_CODES@[i] == 0x3099);
        reveal_strlit("ESP_ERR_DPP_INVALID_ATTR");
        reveal_strlit("[ESP_ERR_DPP_INVALID_ATTR]: Encountered invalid DPP Attribute");
        reveal_strlit("Encountered invalid DPP Attribute");
        assert("[ESP_ERR_DPP_INVALID_ATTR]: Encountered invalid DPP Attribute"@ =~= seq!['['] + "ESP_ERR_DPP_INVALID_ATTR"@ + seq![']', ':', ' '] + "Encountered invalid DPP Attribute"@);
    } else if i == 100 {
        assert(ESP_IDF_ERROR_CODES@[i] == 0x309a);
        reveal_strlit("ESP_ERR_DPP_AUTH_TIMEOUT");
        reveal_strlit("[ESP_ERR_DPP_AUTH_TIMEOUT]: DPP Auth response was not received in time");
        reveal_strlit("DPP Auth response was not received in time");
        assert("[ESP_ERR_DPP_AUTH_TIMEOUT]: DPP Auth response was not received in time"@ =~= seq!['['] + "ESP_ERR_DPP_AUTH_TIMEOUT"@ + seq![']', ':', ' '] + "DPP Auth response was not received in time"@);
    } else if i == 101 {
        assert(ESP_IDF_ERROR_CODES@[i] == 0x309b);
        reveal_strlit("ESP_ERR_DPP_INVALID_LIST");
        reveal_strlit("[ESP_ERR_DPP_INVALID_LIST]: Channel list given in esp_supp_dpp_bootstrap_gen() is not valid or too big");
        reveal_strlit("Channel list given in esp_supp_dpp_bootstrap_gen() is not valid or too big");
        assert("[ESP_ERR_DPP_INVALID_LIST]: Channel list given in esp_supp_dpp_bootstrap_gen() is not valid or too big"@ =~= seq!['['] + "ESP_ERR_DPP_INVALID_LIST"@ + seq![']', ':', ' '] + "Channel list given in esp_supp_dpp_bootstrap_gen() is not valid or too big"@);
    } else if i == 102 {
        assert(ESP_IDF_ERROR_CODES@[i] == 0x309c);
        reveal_strlit("ESP_ERR_DPP_CONF_TIMEOUT");
        reveal_strlit("[ESP_ERR_DPP_CONF_TIMEOUT]: DPP Configuration was not received in time");
        reveal_strlit("DPP Configuration was not received in time");
        assert("[ESP_ERR_DPP_CONF_TIMEOUT]: DPP Configuration was not received in time"@ =~= seq!['['] + "ESP_ERR_DPP_CONF_TIMEOUT"@ + seq![']', ':', ' '] + "DPP Configuration was not received in time"@);
    } else if i == 103 {
        assert(ESP_IDF_ERROR_CODES@[i] == 0x4001);
        reveal_strlit("ESP_ERR_MESH_WIFI_NOT_START");
        reveal_strlit("[ESP_ERR_MESH_WIFI_NOT_START]: No further error description");
        reveal_strlit("No further error description");
        assert("[ESP_ERR_MESH_WIFI_NOT_START]: No further error description"@ =~= seq!['['] + "ESP_ERR_MESH_WIFI_NOT_START"@ + seq![']', ':', ' '] + "No further error description"@);
    } else if i == 104 {
        assert(ESP_IDF_ERROR_CODES@[i] == 0x4002);
        reveal_strlit("ESP_ERR_MESH_NOT_INIT");
        reveal_strlit("[ESP_ERR_MESH_NOT_INIT]: No further error description");
        reveal_strlit("No further error description");
        assert("[ESP_ERR_MESH_NOT_INIT]: No further error description"@ =~= seq!['['] + "ESP_ERR_MESH_NOT_INIT"@ + seq![']', ':', ' '] + "No further error description"@);
    } else if i == 105 {
        assert(ESP_IDF_ERROR_CODES@[i] == 0x4003);
        reveal_strlit("ESP_ERR_MESH_NOT_CONFIG");
        reveal_strlit("[ESP_ERR_MESH_NOT_CONFIG]: No further error description");
        reveal_strlit("No further error description");
        assert("[ESP_ERR_MESH_NOT_CONFIG]: No further error description"@ =~= seq!['['] + "ESP_ERR_MESH_NOT_CONFIG"@ + seq![']', ':', ' '] + "No further error description"@);
    } else if i == 106 {
        assert(ESP_IDF_ERROR_CODES@[i] == 0x4004);
        reveal_strlit("ESP_ERR_MESH_NOT_START");
        reveal_strlit("[ESP_ERR_MESH_NOT_START]: No further error description");
        reveal_strlit("No further error description");
        assert("[ESP_ERR_MESH_NOT_START]: No further error description"@ =~= seq!['['] + "ESP_ERR_MESH_NOT_START"@ + seq![']', ':', ' '] + "No further error description"@);
    } else if i == 107 {
        assert(ESP_IDF_ERROR_CODES@[i] == 0x4005);
        reveal_strlit("ESP_ERR_MESH_NOT_SUPPORT");
        reveal_strlit("[ESP_ERR_MESH_NOT_SUPPORT]: No further error description");
        reveal_strlit("No further error description");
        assert("[ESP_ERR_MESH_NOT_SUPPORT]: No further error description"@ =~= seq!['['] + "ESP_ERR_MESH_NOT_SUPPORT"@ + seq![']', ':', ' '] + "No further error description"@);
    } else if i == 108 {
        assert(ESP_IDF_ERROR_CODES@[i] == 0x4006);
        reveal_strlit("ESP_ERR_MESH_NOT_ALLOWED");
        reveal_strlit("[ESP_ERR_MESH_NOT_ALLOWED]: No further error description");
        reveal_strlit("No further error description");
        assert("[ESP_ERR_MESH_NOT_ALLOWED]: No further error description"@ =~= seq!['['] + "ESP_ERR_MESH_NOT_ALLOWED"@ + seq![']', ':', ' '] + "No further error description"@);
    } else if i == 109 {
        assert(ESP_IDF_ERROR_CODES@[i] == 0x4007);
        reveal_strlit("ESP_ERR_MESH_NO_MEMORY");
        reveal_strlit("[ESP_ERR_MESH_NO_MEMORY]: No further error description");
        reveal_strlit("No further error description");
        assert("[ESP_ERR_MESH_NO_MEMORY]: No further error description"@ =~= seq!['['] + "ESP_ERR_MESH_NO_MEMORY"@ + seq![']', ':', ' '] + "No further error description"@);
    } else if i == 110 {
        assert(ESP_IDF_ERROR_CODES@[i] == 0x4008);
        reveal_strlit("ESP_ERR_MESH_ARGUMENT");
        reveal_strlit("[ESP_ERR_MESH_ARGUMENT]: No further error description");
        reveal_strlit("No further error description");
        assert("[ESP_ERR_MESH_ARGUMENT]: No further error description"@ =~= seq!['['] + "ESP_ERR_MESH_ARGUMENT"@ + seq![']', ':', ' '] + "No further error description"@);
    } else if i == 111 {
        assert(ESP_IDF_ERROR_CODES@[i] == 0x4009);
        reveal_strlit("ESP_ERR_MESH_EXCEED_MTU");
        reveal_strlit("[ESP_ERR_MESH_EXCEED_MTU]: No further error description");
        reveal_strlit("No further error description");
        assert("[ESP_ERR_MESH_EXCEED_MTU]: No further error description"@ =~= seq!['['] + "ESP_ERR_MESH_EXCEED_MTU"@ + seq![']', ':', ' '] + "No further error description"@);
    }
}

/// Entries 112 to 127 of the table match the name and explanation lists.
proof fn lemma_table_entries_7(i: int)
    requires
        112 <= i < 128,
    ensures
        table_entry_matches(i),
{
    if i == 112 {
        assert(ESP_IDF_ERROR_CODES@[i] == 0x400a);
        reveal_strlit("ESP_ERR_MESH_TIMEOUT");
        reveal_strlit("[ESP_ERR_MESH_TIMEOUT]: No further error description");
        reveal_strlit("No further error description");
        assert("[ESP_ERR_MESH_TIMEOUT]: No further error description"@ =~= seq!['['] + "ESP_ERR_MESH_TIMEOUT"@ + seq![']', ':', ' '] + "No further error description"@);
    } else if i == 113 {
        assert(ESP_IDF_ERROR_CODES@[i] == 0x400b);
        reveal_strlit("ESP_ERR_MESH_DISCONNECTED");
        reveal_strlit("[ESP_ERR_MESH_DISCONNECTED]: No further error description");
        reveal_strlit("No further error description");
        assert("[ESP_ERR_MESH_DISCONNECTED]: No further error description"@ =~= seq!['['] + "ESP_ERR_MESH_DISCONNECTED"@ + seq![']', ':', ' '] + "No further error description"@);
    } else if i == 114 {
        assert(ESP_IDF_ERROR_CODES@[i] == 0x400c);
        reveal_strlit("ESP_ERR_MESH_QUEUE_FAIL");
        reveal_strlit("[ESP_ERR_MESH_QUEUE_FAIL]: No further error description");
        reveal_strlit("No further error description");
        assert("[ESP_ERR_MESH_QUEUE_FAIL]: No further error description"@ =~= seq!['['] + "ESP_ERR_MESH_QUEUE_FAIL"@ + seq![']', ':', ' '] + "No further error description"@);
    } else if i == 115 {
        assert(ESP_IDF_ERROR_CODES@[i] == 0x400d);
        reveal_strlit("ESP_ERR_MESH_QUEUE_FULL");
        reveal_strlit("[ESP_ERR_MESH_QUEUE_FULL]: No further error description");
        reveal_strlit("No further error description");
        assert("[ESP_ERR_MESH_QUEUE_FULL]: No further error description"@ =~= seq!['['] + "ESP_ERR_MESH_QUEUE_FULL"@ + seq![']', ':', ' '] + "No further error description"@);
    } else if i == 116 {
        assert(ESP_IDF_ERROR_CODES@[i] == 0x400e);
        reveal_strlit("ESP_ERR_MESH_NO_PARENT_FOUND");
        reveal_strlit("[ESP_ERR_MESH_NO_PARENT_FOUND]: No further error description");
        reveal_strlit("No further error description");
        assert("[ESP_ERR_MESH_NO_PARENT_FOUND]: No further error description"@ =~= seq!['['] + "ESP_ERR_MESH_NO_PARENT_FOUND"@ + seq![']', ':', ' '] + "No further error description"@);
    } else if i == 117 {
        assert(ESP_IDF_ERROR_CODES@[i] == 0x400f);
        reveal_strlit("ESP_ERR_MESH_NO_ROUTE_FOUND");
        reveal_strlit("[ESP_ERR_MESH_NO_ROUTE_FOUND]: No further error description");
        reveal_strlit("No further error description");
        assert("[ESP_ERR_MESH_NO_ROUTE_FOUND]: No further error description"@ =~= seq!['['] + "ESP_ERR_MESH_NO_ROUTE_FOUND"@ + seq![']', ':', ' '] + "No further error description"@);
    } else if i == 118 {
        assert(ESP_IDF_ERROR_CODES@[i] == 0x4010);
        reveal_strlit("ESP_ERR_MESH_OPTION_NULL");
        reveal_strlit("[ESP_ERR_MESH_OPTION_NULL]: No further error description");
        reveal_strlit("No further error description");
        assert("[ESP_ERR_MESH_OPTION_NULL]: No further error description"@ =~= seq!['['] + "ESP_ERR_MESH_OPTION_NULL"@ + seq![']', ':', ' '] + "No further error description"@);
    } else if i == 119 {
        assert(ESP_IDF_ERROR_CODES@[i] == 0x4011);
        reveal_strlit("ESP_ERR_MESH_OPTION_UNKNOWN");
        reveal_strlit("[ESP_ERR_MESH_OPTION_UNKNOWN]: No further error description");
        reveal_strlit("No further error description");
        assert("[ESP_ERR_MESH_OPTION_UNKNOWN]: No further error description"@ =~= seq!['['] + "ESP_ERR_MESH_OPTION_UNKNOWN"@ + seq![']', ':', ' '] + "No further error description"@);
    } else if i == 120 {
        assert(ESP_IDF_ERROR_CODES@[i] == 0x4012);
        reveal_strlit("ESP_ERR_MESH_XON_NO_WINDOW");
        reveal_strlit("[ESP_ERR_MESH_XON_NO_WINDOW]: No further error description");
        reveal_strlit("No further error description");
        assert("[ESP_ERR_MESH_XON_NO_WINDOW]: No further error description"@ =~= seq!['['] + "ESP_ERR_MESH_XON_NO_WINDOW"@ + seq![']', ':', ' '] + "No further error description"@);
    } else if i == 121 {
        assert(ESP_IDF_ERROR_CODES@[i] == 0x4013);
        reveal_strlit("ESP_ERR_MESH_INTERFACE");
        reveal_strlit("[ESP_ERR_MESH_INTERFACE]: No further error description");
        reveal_strlit("No further error description");
        assert("[ESP_ERR_MESH_INTERFACE]: No further error description"@ =~= seq!['['] + "ESP_ERR_MESH_INTERFACE"@ + seq![']', ':', ' '] + "No further error description"@);
    } else if i == 122 {
        assert(ESP_IDF_ERROR_CODES@[i] == 0x4014);
        reveal_strlit("ESP_ERR_MESH_DISCARD_DUPLICATE");
        reveal_strlit("[ESP_ERR_MESH_DISCARD_DUPLICATE]: No further error description");
        reveal_strlit("No further error description");
        assert("[ESP_ERR_MESH_DISCARD_DUPLICATE]: No further error description"@ =~= seq!['['] + "ESP_ERR_MESH_DISCARD_DUPLICATE"@ + seq![']', ':', ' '] + "No further error description"@);
    } else if i == 123 {
        assert(ESP_IDF_ERROR_CODES@[i] == 0x4015);
        reveal_strlit("ESP_ERR_MESH_DISCARD");
        reveal_strlit("[ESP_ERR_MESH_DISCARD]: No further error description");
        reveal_strlit("No further error description");
        assert("[ESP_ERR_MESH_DISCARD]: No further error description"@ =~= seq!['['] + "ESP_ERR_MESH_DISCARD"@ + seq![']', ':', ' '] + "No further error description"@);
    } else if i == 124 {
        assert(ESP_IDF_ERROR_CODES@[i] == 0x4016);
        reveal_strlit("ESP_ERR_MESH_VOTING");
        reveal_strlit("[ESP_ERR_MESH_VOTING]: No further error description");
        reveal_strlit("No further error description");
        assert("[ESP_ERR_MESH_VOTING]: No further error description"@ =~= seq!['['] + "ESP_ERR_MESH_VOTING"@ + seq![']', ':', ' '] + "No further error description"@);
    } else if i == 125 {
        assert(ESP_IDF_ERROR_CODES@[i] == 0x4017);
        reveal_strlit("ESP_ERR_MESH_XMIT");
        reveal_strlit("[ESP_ERR_MESH_XMIT]: No further error description");
        reveal_strlit("No further error description");
        assert("[ESP_ERR_MESH_XMIT]: No further error description"@ =~= seq!['['] + "ESP_ERR_MESH_XMIT"@ + seq![']', ':', ' '] + "No further error description"@);
    } else if i == 126 {
        assert(ESP_IDF_ERROR_CODES@[i] == 0x4018);
        reveal_strlit("ESP_ERR_MESH_QUEUE_READ");
        reveal_strlit("[ESP_ERR_MESH_QUEUE_READ]: No further error description");
        reveal_strlit("No further error description");
        assert("[ESP_ERR_MESH_QUEUE_READ]: No further error description"@ =~= seq!['['] + "ESP_ERR_MESH_QUEUE_READ"@ + seq![']', ':', ' '] + "No further error description"@);
    } else if i == 127 {
        assert(ESP_IDF_ERROR_CODES@[i] == 0x4019);
        reveal_strlit("ESP_ERR_MESH_PS");
        reveal_strlit("[ESP_ERR_MESH_PS]: No further error description");
        reveal_strlit("No further error description");
        assert("[ESP_ERR_MESH_PS]: No further error description"@ =~= seq!['['] + "ESP_ERR_MESH_PS"@ + seq![']', ':', ' '] + "No further error description"@);
    }
}

/// Entries 128 to 143 of the table match the name and explanation lists.
proof fn lemma_table_entries_8(i: int)
    requires
        128 <= i < 144,
    ensures
        table_entry_matches(i),
{
    if i == 128 {
        assert(ESP_IDF_ERROR_CODES@[i] == 0x401a);
        reveal_strlit("ESP_ERR_MESH_RECV_RELEASE");
        reveal_strlit("[ESP_ERR_MESH_RECV_RELEASE]: No further error description");
        reveal_strlit("No further error description");
        assert("[ESP_ERR_MESH_RECV_RELEASE]: No further error description"@ =~= seq!['['] + "ESP_ERR_MESH_RECV_RELEASE"@ + seq![']', ':', ' '] + "No further error description"@);
    } else if i == 129 {
        assert(ESP_IDF_ERROR_CODES@[i] == 0x5001);
        reveal_strlit("ESP_ERR_ESP_NETIF_INVALID_PARAMS");
        reveal_strlit("[ESP_ERR_ESP_NETIF_INVALID_PARAMS]: No further error description");
        reveal_strlit("No further error description");
        assert("[ESP_ERR_ESP_NETIF_INVALID_PARAMS]: No further error description"@ =~= seq!['['] + "ESP_ERR_ESP_NETIF_INVALID_PARAMS"@ + seq![']', ':', ' '] + "No further error description"@);
    } else if i == 130 {
        assert(ESP_IDF_ERROR_CODES@[i] == 0x5002);
        reveal_strlit("ESP_ERR_ESP_NETIF_IF_NOT_READY");
        reveal_strlit("[ESP_ERR_ESP_NETIF_IF_NOT_READY]: No further error description");
        reveal_strlit("No further error description");
        assert("[ESP_ERR_ESP_NETIF_IF_NOT_READY]: No further error description"@ =~= seq!['['] + "ESP_ERR_ESP_NETIF_IF_NOT_READY"@ + seq![']', ':', ' '] + "No further error description"@);
    } else if i == 131 {
        assert(ESP_IDF_ERROR_CODES@[i] == 0x5003);
        reveal_strlit("ESP_ERR_ESP_NETIF_DHCPC_START_FAILED");
        reveal_strlit("[ESP_ERR_ESP_NETIF_DHCPC_START_FAILED]: No further error description");
        reveal_strlit("No further error description");
        assert("[ESP_ERR_ESP_NETIF_DHCPC_START_FAILED]: No further error description"@ =~= seq!['['] + "ESP_ERR_ESP_NETIF_DHCPC_START_FAILED"@ + seq![']', ':', ' '] + "No further error description"@);
    } else if i == 132 {
        assert(ESP_IDF_ERROR_CODES@[i] == 0x5004);
        reveal_strlit("ESP_ERR_ESP_NETIF_DHCP_ALREADY_STARTED");
        reveal_strlit("[ESP_ERR_ESP_NETIF_DHCP_ALREADY_STARTED]: No further error description");
        reveal_strlit("No further error description");
        assert("[ESP_ERR_ESP_NETIF_DHCP_ALREADY_STARTED]: No further error description"@ =~= seq!['['] + "ESP_ERR_ESP_NETIF_DHCP_ALREADY_STARTED"@ + seq![']', ':', ' '] + "No further error description"@);
    } else if i == 133 {
        assert(ESP_IDF_ERROR_CODES@[i] == 0x5005);
        reveal_strlit("ESP_ERR_ESP_NETIF_DHCP_ALREADY_STOPPED");
        reveal_strlit("[ESP_ERR_ESP_NETIF_DHCP_ALREADY_STOPPED]: No further error description");
        reveal_strlit("No further error description");
        assert("[ESP_ERR_ESP_NETIF_DHCP_ALREADY_STOPPED]: No further error description"@ =~= seq!['['] + "ESP_ERR_ESP_NETIF_DHCP_ALREADY_STOPPED"@ + seq![']', ':', ' '] + "No further error description"@);
    } else if i == 134 {
        assert(ESP_IDF_ERROR_CODES@[i] == 0x5006);
        reveal_strlit("ESP_ERR_ESP_NETIF_NO_MEM");
        reveal_strlit("[ESP_ERR_ESP_NETIF_NO_MEM]: No further error description");
        reveal_strlit("No further error description");
        assert("[ESP_ERR_ESP_NETIF_NO_MEM]: No further error description"@ =~= seq!['['] + "ESP_ERR_ESP_NETIF_NO_MEM"@ + seq![']', ':', ' '] + "No further error description"@);
    } else if i == 135 {
        assert(ESP_IDF_ERROR_CODES@[i] == 0x5007);
        reveal_strlit("ESP_ERR_ESP_NETIF_DHCP_NOT_STOPPED");
        reveal_strlit("[ESP_ERR_ESP_NETIF_DHCP_NOT_STOPPED]: No further error description");
        reveal_strlit("No further error description");
        assert("[ESP_ERR_ESP_NETIF_DHCP_NOT_STOPPED]: No further error description"@ =~= seq!['['] + "ESP_ERR_ESP_NETIF_DHCP_NOT_STOPPED"@ + seq![']', ':', ' '] + "No further error description"@);
    } else if i == 136 {
        assert(ESP_IDF_ERROR_CODES@[i] == 0x5008);
        reveal_strlit("ESP_ERR_ESP_NETIF_DRIVER_ATTACH_FAILED");
        reveal_strlit("[ESP_ERR_ESP_NETIF_DRIVER_ATTACH_FAILED]: No further error description");
        reveal_strlit("No further error description");
        assert("[ESP_ERR_ESP_NETIF_DRIVER_ATTACH_FAILED]: No further error description"@ =~= seq!['['] + "ESP_ERR_ESP_NETIF_DRIVER_ATTACH_FAILED"@ + seq![']', ':', ' '] + "No further error description"@);
    } else if i == 137 {
        assert(ESP_IDF_ERROR_CODES@[i] == 0x5009);
        reveal_strlit("ESP_ERR_ESP_NETIF_INIT_FAILED");
        reveal_strlit("[ESP_ERR_ESP_NETIF_INIT_FAILED]: No further error description");
        reveal_strlit("No further error description");
        assert("[ESP_ERR_ESP_NETIF_INIT_FAILED]: No further error description"@ =~= seq!['['] + "ESP_ERR_ESP_NETIF_INIT_FAILED"@ + seq![']', ':', ' '] + "No further error description"@);
    } else if i == 138 {
        assert(ESP_IDF_ERROR_CODES@[i] == 0x500a);
        reveal_strlit("ESP_ERR_ESP_NETIF_DNS_NOT_CONFIGURED");
        reveal_strlit("[ESP_ERR_ESP_NETIF_DNS_NOT_CONFIGURED]: No further error description");
        reveal_strlit("No further error description");
        assert("[ESP_ERR_ESP_NETIF_DNS_NOT_CONFIGURED]: No further error description"@ =~= seq!['['] + "ESP_ERR_ESP_NETIF_DNS_NOT_CONFIGURED"@ + seq![']', ':', ' '] + "No further error description"@);
    } else if i == 139 {
        assert(ESP_IDF_ERROR_CODES@[i] == 0x500b);
        reveal_strlit("ESP_ERR_ESP_NETIF_MLD6_FAILED");
        reveal_strlit("[ESP_ERR_ESP_NETIF_MLD6_FAILED]: No further error description");
        reveal_strlit("No further error description");
        assert("[ESP_ERR_ESP_NETIF_MLD6_FAILED]: No further error description"@ =~= seq!['['] + "ESP_ERR_ESP_NETIF_MLD6_FAILED"@ + seq![']', ':', ' '] + "No further error description"@);
    } else if i == 140 {
        assert(ESP_IDF_ERROR_CODES@[i] == 0x500c);
        reveal_strlit("ESP_ERR_ESP_NETIF_IP6_ADDR_FAILED");
        reveal_strlit("[ESP_ERR_ESP_NETIF_IP6_ADDR_FAILED]: No further error description");
        reveal_strlit("No further error description");
        assert("[ESP_ERR_ESP_NETIF_IP6_ADDR_FAILED]: No further error description"@ =~= seq!['['] + "ESP_ERR_ESP_NETIF_IP6_ADDR_FAILED"@ + seq![']', ':', ' '] + "No further error description"@);
    } else if i == 141 {
        assert(ESP_IDF_ERROR_CODES@[i] == 0x500d);
        reveal_strlit("ESP_ERR_ESP_NETIF_DHCPS_START_FAILED");
        reveal_strlit("[ESP_ERR_ESP_NETIF_DHCPS_START_FAILED]: No further error description");
        reveal_strlit("No further error description");
        assert("[ESP_ERR_ESP_NETIF_DHCPS_START_FAILED]: No further error description"@ =~= seq!['['] + "ESP_ERR_ESP_NETIF_DHCPS_START_FAILED"@ + seq![']', ':', ' '] + "No further error description"@);
    } else if i == 142 {
        assert(ESP_IDF_ERROR_CODES@[i] == 0x500e);
        reveal_strlit("ESP_ERR_ESP_NETIF_TX_FAILED");
        reveal_strlit("[ESP_ERR_ESP_NETIF_TX_FAILED]: No further error description");
        reveal_strlit("No further error description");
        assert("[ESP_ERR_ESP_NETIF_TX_FAILED]: No further error description"@ =~= seq!['['] + "ESP_ERR_ESP_NETIF_TX_FAILED"@ + seq![']', ':', ' '] + "No further error description"@);
    } else if i == 143 {
        assert(ESP_IDF_ERROR_CODES@[i] == 0x6001);
        reveal_strlit("ESP_ERR_FLASH_OP_FAIL");
        reveal_strlit("[ESP_ERR_FLASH_OP_FAIL]: No further error description");
        reveal_strlit("No further error description");
        assert("[ESP_ERR_FLASH_OP_FAIL]: No further error description"@ =~= seq!['['] + "ESP_ERR_FLASH_OP_FAIL"@ + seq![']', ':', ' '] + "No further error description"@);
    }
}

/// Entries 144 to 159 of the table match the name and explanation lists.
proof fn lemma_table_entries_9(i: int)
    requires
        144 <= i < 160,
    ensures
        table_entry_matches(i),
{
    if i == 144 {
        assert(ESP_IDF_ERROR_CODES@[i] == 0x6002);
        reveal_strlit("ESP_ERR_FLASH_OP_TIMEOUT");
        reveal_strlit("[ESP_ERR_FLASH_OP_TIMEOUT]: No further error description");
        reveal_strlit("No further error description");
        assert("[ESP_ERR_FLASH_OP_TIMEOUT]: No further error description"@ =~= seq!['['] + "ESP_ERR_FLASH_OP_TIMEOUT"@ + seq![']', ':', ' '] + "No further error description"@);
    } else if i == 145 {
        assert(ESP_IDF_ERROR_CODES@[i] == 0x6003);
        reveal_strlit("ESP_ERR_FLASH_NOT_INITIALISED");
        reveal_strlit("[ESP_ERR_FLASH_NOT_INITIALISED]: No further error description");
        reveal_strlit("No further error description");
        assert("[ESP_ERR_FLASH_NOT_INITIALISED]: No further error description"@ =~= seq!['['] + "ESP_ERR_FLASH_NOT_INITIALISED"@ + seq![']', ':', ' '] + "No further error description"@);
    } else if i == 146 {
        assert(ESP_IDF_ERROR_CODES@[i] == 0x6004);
        reveal_strlit("ESP_ERR_FLASH_UNSUPPORTED_HOST");
        reveal_strlit("[ESP_ERR_FLASH_UNSUPPORTED_HOST]: No further error description");
        reveal_strlit("No further error description");
        assert("[ESP_ERR_FLASH_UNSUPPORTED_HOST]: No further error description"@ =~= seq!['['] + "ESP_ERR_FLASH_UNSUPPORTED_HOST"@ + seq![']', ':', ' '] + "No further error description"@);
    } else if i == 147 {
        assert(ESP_IDF_ERROR_CODES@[i] == 0x6005);
        reveal_strlit("ESP_ERR_FLASH_UNSUPPORTED_CHIP");
        reveal_strlit("[ESP_ERR_FLASH_UNSUPPORTED_CHIP]: No further error description");
        reveal_strlit("No further error description");
        assert("[ESP_ERR_FLASH_UNSUPPORTED_CHIP]: No further error description"@ =~= seq!['['] + "ESP_ERR_FLASH_UNSUPPORTED_CHIP"@ + seq![']', ':', ' '] + "No further error description"@);
    } else if i == 148 {
        assert(ESP_IDF_ERROR_CODES@[i] == 0x6006);
        reveal_strlit("ESP_ERR_FLASH_PROTECTED");
        reveal_strlit("[ESP_ERR_FLASH_PROTECTED]: No further error description");
        reveal_strlit("No further error description");
        assert("[ESP_ERR_FLASH_PROTECTED]: No further error description"@ =~= seq!['['] + "ESP_ERR_FLASH_PROTECTED"@ + seq![']', ':', ' '] + "No further error description"@);
    } else if i == 149 {
        assert(ESP_IDF_ERROR_CODES@[i] == 0x7001);
        reveal_strlit("ESP_ERR_HTTP_MAX_REDIRECT");
        reveal_strlit("[ESP_ERR_HTTP_MAX_REDIRECT]: The error exceeds the number of HTTP redirects");
        reveal_strlit("The error exceeds the number of HTTP redirects");
        assert("[ESP_ERR_HTTP_MAX_REDIRECT]: The error exceeds the number of HTTP redirects"@ =~= seq!['['] + "ESP_ERR_HTTP_MAX_REDIRECT"@ + seq![']', ':', ' '] + "The error exceeds the number of HTTP redirects"@);
    } else if i == 150 {
        assert(ESP_IDF_ERROR_CODES@[i] == 0x7002);
        reveal_strlit("ESP_ERR_HTTP_CONNECT");
        reveal_strlit("[ESP_ERR_HTTP_CONNECT]: Error open the HTTP connection");
        reveal_strlit("Error open the HTTP connection");
        assert("[ESP_ERR_HTTP_CONNECT]: Error open the HTTP connection"@ =~= seq!['['] + "ESP_ERR_HTTP_CONNECT"@ + seq![']', ':', ' '] + "Error open the HTTP connection"@);
    } else if i == 151 {
        assert(ESP_IDF_ERROR_CODES@[i] == 0x7003);
        reveal_strlit("ESP_ERR_HTTP_WRITE_DATA");
        reveal_strlit("[ESP_ERR_HTTP_WRITE_DATA]: Error write HTTP data");
        reveal_strlit("Error write HTTP data");
        assert("[ESP_ERR_HTTP_WRITE_DATA]: Error write HTTP data"@ =~= seq!['['] + "ESP_ERR_HTTP_WRITE_DATA"@ + seq![']', ':', ' '] + "Error write HTTP data"@);
    } else if i == 152 {
        assert(ESP_IDF_ERROR_CODES@[i] == 0x7004);
        reveal_strlit("ESP_ERR_HTTP_FETCH_HEADER");
        reveal_strlit("[ESP_ERR_HTTP_FETCH_HEADER]: Error read HTTP header from server");
        reveal_strlit("Error read HTTP header from server");
        assert("[ESP_ERR_HTTP_FETCH_HEADER]: Error read HTTP header from server"@ =~= seq!['['] + "ESP_ERR_HTTP_FETCH_HEADER"@ + seq![']', ':', ' '] + "Error read HTTP header from server"@);
    } else if i == 153 {
        assert(ESP_IDF_ERROR_CODES@[i] == 0x7005);
        reveal_strlit("ESP_ERR_HTTP_INVALID_TRANSPORT");
        reveal_strlit("[ESP_ERR_HTTP_INVALID_TRANSPORT]: There are no transport support for the input scheme");
        reveal_strlit("There are no transport support for the input scheme");
        assert("[ESP_ERR_HTTP_INVALID_TRANSPORT]: There are no transport support for the input scheme"@ =~= seq!['['] + "ESP_ERR_HTTP_INVALID_TRANSPORT"@ + seq![']', ':', ' '] + "There are no transport support for the input scheme"@);
    } else if i == 154 {
        assert(ESP_IDF_ERROR_CODES@[i] == 0x7006);
        reveal_strlit("ESP_ERR_HTTP_CONNECTING");
        reveal_strlit("[ESP_ERR_HTTP_CONNECTING]: HTTP connection hasn't been established yet");
        reveal_strlit("HTTP connection hasn't been established yet");
        assert("[ESP_ERR_HTTP_CONNECTING]: HTTP connection hasn't been established yet"@ =~= seq!['['] + "ESP_ERR_HTTP_CONNECTING"@ + seq![']', ':', ' '] + "HTTP connection hasn't been established yet"@);
    } else if i == 155 {
        assert(ESP_IDF_ERROR_CODES@[i] == 0x7007);
        reveal_strlit("ESP_ERR_HTTP_EAGAIN");
        reveal_strlit("[ESP_ERR_HTTP_EAGAIN]: Mapping of errno EAGAIN to esp_err_t");
        reveal_strlit("Mapping of errno EAGAIN to esp_err_t");
        assert("[ESP_ERR_HTTP_EAGAIN]: Mapping of errno EAGAIN to esp_err_t"@ =~= seq!['['] + "ESP_ERR_HTTP_EAGAIN"@ + seq![']', ':', ' '] + "Mapping of errno EAGAIN to esp_err_t"@);
    } else if i == 156 {
        assert(ESP_IDF_ERROR_CODES@[i] == 0x7008);
        reveal_strlit("ESP_ERR_HTTP_CONNECTION_CLOSED");
        reveal_strlit("[ESP_ERR_HTTP_CONNECTION_CLOSED]: Read FIN from peer and the connection closed");
        reveal_strlit("Read FIN from peer and the connection closed");
        assert("[ESP_ERR_HTTP_CONNECTION_CLOSED]: Read FIN from peer and the connection closed"@ =~= seq!['['] + "ESP_ERR_HTTP_CONNECTION_CLOSED"@ + seq![']', ':', ' '] + "Read FIN from peer and the connection closed"@);
    } else if i == 157 {
        assert(ESP_IDF_ERROR_CODES@[i] == 0x7009);
        reveal_strlit("ESP_ERR_HTTP_NOT_MODIFIED");
        reveal_strlit("[ESP_ERR_HTTP_NOT_MODIFIED]: HTTP 304 Not Modified, no update available");
        reveal_strlit("HTTP 304 Not Modified, no update available");
        assert("[ESP_ERR_HTTP_NOT_MODIFIED]: HTTP 304 Not Modified, no update available"@ =~= seq!['['] + "ESP_ERR_HTTP_NOT_MODIFIED"@ + seq![']', ':', ' '] + "HTTP 304 Not Modified, no update available"@);
    } else if i == 158 {
        assert(ESP_IDF_ERROR_CODES@[i] == 0x700a);
        reveal_strlit("ESP_ERR_HTTP_RANGE_NOT_SATISFIABLE");
        reveal_strlit("[ESP_ERR_HTTP_RANGE_NOT_SATISFIABLE]: HTTP 416 Range Not Satisfiable, requested range in header is incorrect");
        reveal_strlit("HTTP 416 Range Not Satisfiable, requested range in header is incorrect");
        assert("[ESP_ERR_HTTP_RANGE_NOT_SATISFIABLE]: HTTP 416 Range Not Satisfiable, requested range in header is incorrect"@ =~= seq!['['] + "ESP_ERR_HTTP_RANGE_NOT_SATISFIABLE"@ + seq![']', ':', ' '] + "HTTP 416 Range Not Satisfiable, requested range in header is incorrect"@);
    } else if i == 159 {
        assert(ESP_IDF_ERROR_CODES@[i] == 0x700b);
        reveal_strlit("ESP_ERR_HTTP_READ_TIMEOUT");
        reveal_strlit("[ESP_ERR_HTTP_READ_TIMEOUT]: HTTP data read timeout");
        reveal_strlit("HTTP data read timeout");
        assert("[ESP_ERR_HTTP_READ_TIMEOUT]: HTTP data read timeout"@ =~= seq!['['] + "ESP_ERR_HTTP_READ_TIMEOUT"@ + seq![']', ':', ' '] + "HTTP data read timeout"@);
    }
}

/// Entries 160 to 175 of the table match the name and explanation lists.
proof fn lemma_table_entries_10(i: int)
    requires
        160 <= i < 176,
    ensures
        table_entry_matches(i),
{
    if i == 160 {
        assert(ESP_IDF_ERROR_CODES@[i] == 0x700c);
        reveal_strlit("ESP_ERR_HTTP_INCOMPLETE_DATA");
        reveal_strlit("[ESP_ERR_HTTP_INCOMPLETE_DATA]: Incomplete data received, less than Content-Length or last chunk");
        reveal_strlit("Incomplete data received, less than Content-Length or last chunk");
        assert("[ESP_ERR_HTTP_INCOMPLETE_DATA]: Incomplete data received, less than Content-Length or last chunk"@ =~= seq!['['] + "ESP_ERR_HTTP_INCOMPLETE_DATA"@ + seq![']', ':', ' '] + "Incomplete data received, less than Content-Length or last chunk"@);
    } else if i == 161 {
        assert(ESP_IDF_ERROR_CODES@[i] == 0x8001);
        reveal_strlit("ESP_ERR_ESP_TLS_CANNOT_RESOLVE_HOSTNAME");
        reveal_strlit("[ESP_ERR_ESP_TLS_CANNOT_RESOLVE_HOSTNAME]: Error if hostname couldn't be resolved upon tls connection");
        reveal_strlit("Error if hostname couldn't be resolved upon tls connection");
        assert("[ESP_ERR_ESP_TLS_CANNOT_RESOLVE_HOSTNAME]: Error if hostname couldn't be resolved upon tls connection"@ =~= seq!['['] + "ESP_ERR_ESP_TLS_CANNOT_RESOLVE_HOSTNAME"@ + seq![']', ':', ' '] + "Error if hostname couldn't be resolved upon tls connection"@);
    } else if i == 162 {
        assert(ESP_IDF_ERROR_CODES@[i] == 0x8002);
        reveal_strlit("ESP_ERR_ESP_TLS_CANNOT_CREATE_SOCKET");
        reveal_strlit("[ESP_ERR_ESP_TLS_CANNOT_CREATE_SOCKET]: Failed to create socket");
        reveal_strlit("Failed to create socket");
        assert("[ESP_ERR_ESP_TLS_CANNOT_CREATE_SOCKET]: Failed to create socket"@ =~= seq!['['] + "ESP_ERR_ESP_TLS_CANNOT_CREATE_SOCKET"@ + seq![']', ':', ' '] + "Failed to create socket"@);
    } else if i == 163 {
        assert(ESP_IDF_ERROR_CODES@[i] == 0x8003);
        reveal_strlit("ESP_ERR_ESP_TLS_UNSUPPORTED_PROTOCOL_FAMILY");
        reveal_strlit("[ESP_ERR_ESP_TLS_UNSUPPORTED_PROTOCOL_FAMILY]: Unsupported protocol family");
        reveal_strlit("Unsupported protocol family");
        assert("[ESP_ERR_ESP_TLS_UNSUPPORTED_PROTOCOL_FAMILY]: Unsupported protocol family"@ =~= seq!['['] + "ESP_ERR_ESP_TLS_UNSUPPORTED_PROTOCOL_FAMILY"@ + seq![']', ':', ' '] + "Unsupported protocol family"@);
    } else if i == 164 {
        assert(ESP_IDF_ERROR_CODES@[i] == 0x8004);
        reveal_strlit("ESP_ERR_ESP_TLS_FAILED_CONNECT_TO_HOST");
        reveal_strlit("[ESP_ERR_ESP_TLS_FAILED_CONNECT_TO_HOST]: Failed to connect to host");
        reveal_strlit("Failed to connect to host");
        assert("[ESP_ERR_ESP_TLS_FAILED_CONNECT_TO_HOST]: Failed to connect to host"@ =~= seq!['['] + "ESP_ERR_ESP_TLS_FAILED_CONNECT_TO_HOST"@ + seq![']', ':', ' '] + "Failed to connect to host"@);
    } else if i == 165 {
        assert(ESP_IDF_ERROR_CODES@[i] == 0x8005);
        reveal_strlit("ESP_ERR_ESP_TLS_SOCKET_SETOPT_FAILED");
        reveal_strlit("[ESP_ERR_ESP_TLS_SOCKET_SETOPT_FAILED]: failed to set/get socket option");
        reveal_strlit("failed to set/get socket option");
        assert("[ESP_ERR_ESP_TLS_SOCKET_SETOPT_FAILED]: failed to set/get socket option"@ =~= seq!['['] + "ESP_ERR_ESP_TLS_SOCKET_SETOPT_FAILED"@ + seq![']', ':', ' '] + "failed to set/get socket option"@);
    } else if i == 166 {
        assert(ESP_IDF_ERROR_CODES@[i] == 0x8006);
        reveal_strlit("ESP_ERR_ESP_TLS_CONNECTION_TIMEOUT");
        reveal_strlit("[ESP_ERR_ESP_TLS_CONNECTION_TIMEOUT]: new connection in esp_tls_low_level_conn connection timeouted");
        reveal_strlit("new connection in esp_tls_low_level_conn connection timeouted");
        assert("[ESP_ERR_ESP_TLS_CONNECTION_TIMEOUT]: new connection in esp_tls_low_level_conn connection timeouted"@ =~= seq!['['] + "ESP_ERR_ESP_TLS_CONNECTION_TIMEOUT"@ + seq![']', ':', ' '] + "new connection in esp_tls_low_level_conn connection timeouted"@);
    } else if i == 167 {
        assert(ESP_IDF_ERROR_CODES@[i] == 0x8007);
        reveal_strlit("ESP_ERR_ESP_TLS_SE_FAILED");
        reveal_strlit("[ESP_ERR_ESP_TLS_SE_FAILED]: No further error description");
        reveal_strlit("No further error description");
        assert("[ESP_ERR_ESP_TLS_SE_FAILED]: No further error description"@ =~= seq!['['] + "ESP_ERR_ESP_TLS_SE_FAILED"@ + seq![']', ':', ' '] + "No further error description"@);
    } else if i == 168 {
        assert(ESP_IDF_ERROR_CODES@[i] == 0x8008);
        reveal_strlit("ESP_ERR_ESP_TLS_TCP_CLOSED_FIN");
        reveal_strlit("[ESP_ERR_ESP_TLS_TCP_CLOSED_FIN]: No further error description");
        reveal_strlit("No further error description");
        assert("[ESP_ERR_ESP_TLS_TCP_CLOSED_FIN]: No further error description"@ =~= seq!['['] + "ESP_ERR_ESP_TLS_TCP_CLOSED_FIN"@ + seq![']', ':', ' '] + "No further error description"@);
    } else if i == 169 {
        assert(ESP_IDF_ERROR_CODES@[i] == 0x8009);
        reveal_strlit("ESP_ERR_ESP_TLS_SERVER_HANDSHAKE_TIMEOUT");
        reveal_strlit("[ESP_ERR_ESP_TLS_SERVER_HANDSHAKE_TIMEOUT]: TLS handshake timeout");
        reveal_strlit("TLS handshake timeout");
        assert("[ESP_ERR_ESP_TLS_SERVER_HANDSHAKE_TIMEOUT]: TLS handshake timeout"@ =~= seq!['['] + "ESP_ERR_ESP_TLS_SERVER_HANDSHAKE_TIMEOUT"@ + seq![']', ':', ' '] + "TLS handshake timeout"@);
    } else if i == 170 {
        assert(ESP_IDF_ERROR_CODES@[i] == 0x8010);
        reveal_strlit("ESP_ERR_MBEDTLS_CERT_PARTLY_OK");
        reveal_strlit("[ESP_ERR_MBEDTLS_CERT_PARTLY_OK]: mbedtls parse certificates was partly successful");
        reveal_strlit("mbedtls parse certificates was partly successful");
        assert("[ESP_ERR_MBEDTLS_CERT_PARTLY_OK]: mbedtls parse certificates was partly successful"@ =~= seq!['['] + "ESP_ERR_MBEDTLS_CERT_PARTLY_OK"@ + seq![']', ':', ' '] + "mbedtls parse certificates was partly successful"@);
    } else if i == 171 {
        assert(ESP_IDF_ERROR_CODES@[i] == 0x8011);
        reveal_strlit("ESP_ERR_MBEDTLS_CTR_DRBG_SEED_FAILED");
        reveal_strlit("[ESP_ERR_MBEDTLS_CTR_DRBG_SEED_FAILED]: mbedtls api returned error");
        reveal_strlit("mbedtls api returned error");
        assert("[ESP_ERR_MBEDTLS_CTR_DRBG_SEED_FAILED]: mbedtls api returned error"@ =~= seq!['['] + "ESP_ERR_MBEDTLS_CTR_DRBG_SEED_FAILED"@ + seq![']', ':', ' '] + "mbedtls api returned error"@);
    } else if i == 172 {
        assert(ESP_IDF_ERROR_CODES@[i] == 0x8012);
        reveal_strlit("ESP_ERR_MBEDTLS_SSL_SET_HOSTNAME_FAILED");
        reveal_strlit("[ESP_ERR_MBEDTLS_SSL_SET_HOSTNAME_FAILED]: mbedtls api returned error");
        reveal_strlit("mbedtls api returned error");
        assert("[ESP_ERR_MBEDTLS_SSL_SET_HOSTNAME_FAILED]: mbedtls api returned error"@ =~= seq!['['] + "ESP_ERR_MBEDTLS_SSL_SET_HOSTNAME_FAILED"@ + seq![']', ':', ' '] + "mbedtls api returned error"@);
    } else if i == 173 {
        assert(ESP_IDF_ERROR_CODES@[i] == 0x8013);
        reveal_strlit("ESP_ERR_MBEDTLS_SSL_CONFIG_DEFAULTS_FAILED");
        reveal_strlit("[ESP_ERR_MBEDTLS_SSL_CONFIG_DEFAULTS_FAILED]: mbedtls api returned error");
        reveal_strlit("mbedtls api returned error");
        assert("[ESP_ERR_MBEDTLS_SSL_CONFIG_DEFAULTS_FAILED]: mbedtls api returned error"@ =~= seq!['['] + "ESP_ERR_MBEDTLS_SSL_CONFIG_DEFAULTS_FAILED"@ + seq![']', ':', ' '] + "mbedtls api returned error"@);
    } else if i == 174 {
        assert(ESP_IDF_ERROR_CODES@[i] == 0x8014);
        reveal_strlit("ESP_ERR_MBEDTLS_SSL_CONF_ALPN_PROTOCOLS_FAILED");
        reveal_strlit("[ESP_ERR_MBEDTLS_SSL_CONF_ALPN_PROTOCOLS_FAILED]: mbedtls api returned error");
        reveal_strlit("mbedtls api returned error");
        assert("[ESP_ERR_MBEDTLS_SSL_CONF_ALPN_PROTOCOLS_FAILED]: mbedtls api returned error"@ =~= seq!['['] + "ESP_ERR_MBEDTLS_SSL_CONF_ALPN_PROTOCOLS_FAILED"@ + seq![']', ':', ' '] + "mbedtls api returned error"@);
    } else if i == 175 {
        assert(ESP_IDF_ERROR_CODES@[i] == 0x8015);
        reveal_strlit("ESP_ERR_MBEDTLS_X509_CRT_PARSE_FAILED");
        reveal_strlit("[ESP_ERR_MBEDTLS_X509_CRT_PARSE_FAILED]: mbedtls api returned error");
        reveal_strlit("mbedtls api returned error");
        assert("[ESP_ERR_MBEDTLS_X509_CRT_PARSE_FAILED]: mbedtls api returned error"@ =~= seq!['['] + "ESP_ERR_MBEDTLS_X509_CRT_PARSE_FAILED"@ + seq![']', ':', ' '] + "mbedtls api returned error"@);
    }
}

/// Entries 176 to 191 of the table match the name and explanation lists.
proof fn lemma_table_entries_11(i: int)
    requires
        176 <= i < 192,
    ensures
        table_entry_matches(i),
{
    if i == 176 {
        assert(ESP_IDF_ERROR_CODES@[i] == 0x8016);
        reveal_strlit("ESP_ERR_MBEDTLS_SSL_CONF_OWN_CERT_FAILED");
        reveal_strlit("[ESP_ERR_MBEDTLS_SSL_CONF_OWN_CERT_FAILED]: mbedtls api returned error");
        reveal_strlit("mbedtls api returned error");
        assert("[ESP_ERR_MBEDTLS_SSL_CONF_OWN_CERT_FAILED]: mbedtls api returned error"@ =~= seq!['['] + "ESP_ERR_MBEDTLS_SSL_CONF_OWN_CERT_FAILED"@ + seq![']', ':', ' '] + "mbedtls api returned error"@);
    } else if i == 177 {
        assert(ESP_IDF_ERROR_CODES@[i] == 0x8017);
        reveal_strlit("ESP_ERR_MBEDTLS_SSL_SETUP_FAILED");
        reveal_strlit("[ESP_ERR_MBEDTLS_SSL_SETUP_FAILED]: mbedtls api returned error");
        reveal_strlit("mbedtls api returned error");
        assert("[ESP_ERR_MBEDTLS_SSL_SETUP_FAILED]: mbedtls api returned error"@ =~= seq!['['] + "ESP_ERR_MBEDTLS_SSL_SETUP_FAILED"@ + seq![']', ':', ' '] + "mbedtls api returned error"@);
    } else if i == 178 {
        assert(ESP_IDF_ERROR_CODES@[i] == 0x8018);
        reveal_strlit("ESP_ERR_MBEDTLS_SSL_WRITE_FAILED");
        reveal_strlit("[ESP_ERR_MBEDTLS_SSL_WRITE_FAILED]: mbedtls api returned error");
        reveal_strlit("mbedtls api returned error");
        assert("[ESP_ERR_MBEDTLS_SSL_WRITE_FAILED]: mbedtls api returned error"@ =~= seq!['['] + "ESP_ERR_MBEDTLS_SSL_WRITE_FAILED"@ + seq![']', ':', ' '] + "mbedtls api returned error"@);
    } else if i == 179 {
        assert(ESP_IDF_ERROR_CODES@[i] == 0x8019);
        reveal_strlit("ESP_ERR_MBEDTLS_PK_PARSE_KEY_FAILED");
        reveal_strlit("[ESP_ERR_MBEDTLS_PK_PARSE_KEY_FAILED]: mbedtls api returned failed");
        reveal_strlit("mbedtls api returned failed");
        assert("[ESP_ERR_MBEDTLS_PK_PARSE_KEY_FAILED]: mbedtls api returned failed"@ =~= seq!['['] + "ESP_ERR_MBEDTLS_PK_PARSE_KEY_FAILED"@ + seq![']', ':', ' '] + "mbedtls api returned failed"@);
    } else if i == 180 {
        assert(ESP_IDF_ERROR_CODES@[i] == 0x801a);
        reveal_strlit("ESP_ERR_MBEDTLS_SSL_HANDSHAKE_FAILED");
        reveal_strlit("[ESP_ERR_MBEDTLS_SSL_HANDSHAKE_FAILED]: mbedtls api returned failed");
        reveal_strlit("mbedtls api returned failed");
        assert("[ESP_ERR_MBEDTLS_SSL_HANDSHAKE_FAILED]: mbedtls api returned failed"@ =~= seq!['['] + "ESP_ERR_MBEDTLS_SSL_HANDSHAKE_FAILED"@ + seq![']', ':', ' '] + "mbedtls api returned failed"@);
    } else if i == 181 {
        assert(ESP_IDF_ERROR_CODES@[i] == 0x801b);
        reveal_strlit("ESP_ERR_MBEDTLS_SSL_CONF_PSK_FAILED");
        reveal_strlit("[ESP_ERR_MBEDTLS_SSL_CONF_PSK_FAILED]: mbedtls api returned failed");
        reveal_strlit("mbedtls api returned failed");
        assert("[ESP_ERR_MBEDTLS_SSL_CONF_PSK_FAILED]: mbedtls api returned failed"@ =~= seq!['['] + "ESP_ERR_MBEDTLS_SSL_CONF_PSK_FAILED"@ + seq![']', ':', ' '] + "mbedtls api returned failed"@);
    } else if i == 182 {
        assert(ESP_IDF_ERROR_CODES@[i] == 0x801c);
        reveal_strlit("ESP_ERR_MBEDTLS_SSL_TICKET_SETUP_FAILED");
        reveal_strlit("[ESP_ERR_MBEDTLS_SSL_TICKET_SETUP_FAILED]: mbedtls api returned failed");
        reveal_strlit("mbedtls api returned failed");
        assert("[ESP_ERR_MBEDTLS_SSL_TICKET_SETUP_FAILED]: mbedtls api returned failed"@ =~= seq!['['] + "ESP_ERR_MBEDTLS_SSL_TICKET_SETUP_FAILED"@ + seq![']', ':', ' '] + "mbedtls api returned failed"@);
    } else if i == 183 {
        assert(ESP_IDF_ERROR_CODES@[i] == 0x801d);
        reveal_strlit("ESP_ERR_MBEDTLS_SSL_READ_FAILED");
        reveal_strlit("[ESP_ERR_MBEDTLS_SSL_READ_FAILED]: mbedtls api returned failed");
        reveal_strlit("mbedtls api returned failed");
        assert("[ESP_ERR_MBEDTLS_SSL_READ_FAILED]: mbedtls api returned failed"@ =~= seq!['['] + "ESP_ERR_MBEDTLS_SSL_READ_FAILED"@ + seq![']', ':', ' '] + "mbedtls api returned failed"@);
    } else if i == 184 {
        assert(ESP_IDF_ERROR_CODES@[i] == 0x9001);
        reveal_strlit("ESP_ERR_HTTPS_OTA_IN_PROGRESS");
        reveal_strlit("[ESP_ERR_HTTPS_OTA_IN_PROGRESS]: No further error description");
        reveal_strlit("No further error description");
        assert("[ESP_ERR_HTTPS_OTA_IN_PROGRESS]: No further error description"@ =~= seq!['['] + "ESP_ERR_HTTPS_OTA_IN_PROGRESS"@ + seq![']', ':', ' '] + "No further error description"@);
    } else if i == 185 {
        assert(ESP_IDF_ERROR_CODES@[i] == 0xb001);
        reveal_strlit("ESP_ERR_HTTPD_HANDLERS_FULL");
        reveal_strlit("[ESP_ERR_HTTPD_HANDLERS_FULL]: All slots for registering URI handlers have been consumed");
        reveal_strlit("All slots for registering URI handlers have been consumed");
        assert("[ESP_ERR_HTTPD_HANDLERS_FULL]: All slots for registering URI handlers have been consumed"@ =~= seq!['['] + "ESP_ERR_HTTPD_HANDLERS_FULL"@ + seq![']', ':', ' '] + "All slots for registering URI handlers have been consumed"@);
    } else if i == 186 {
        assert(ESP_IDF_ERROR_CODES@[i] == 0xb002);
        reveal_strlit("ESP_ERR_HTTPD_HANDLER_EXISTS");
        reveal_strlit("[ESP_ERR_HTTPD_HANDLER_EXISTS]: URI handler with same method and target URI already registered");
        reveal_strlit("URI handler with same method and target URI already registered");
        assert("[ESP_ERR_HTTPD_HANDLER_EXISTS]: URI handler with same method and target URI already registered"@ =~= seq!['['] + "ESP_ERR_HTTPD_HANDLER_EXISTS"@ + seq![']', ':', ' '] + "URI handler with same method and target URI already registered"@);
    } else if i == 187 {
        assert(ESP_IDF_ERROR_CODES@[i] == 0xb003);
        reveal_strlit("ESP_ERR_HTTPD_INVALID_REQ");
        reveal_strlit("[ESP_ERR_HTTPD_INVALID_REQ]: Invalid request pointer");
        reveal_strlit("Invalid request pointer");
        assert("[ESP_ERR_HTTPD_INVALID_REQ]: Invalid request pointer"@ =~= seq!['['] + "ESP_ERR_HTTPD_INVALID_REQ"@ + seq![']', ':', ' '] + "Invalid request pointer"@);
    } else if i == 188 {
        assert(ESP_IDF_ERROR_CODES@[i] == 0xb004);
        reveal_strlit("ESP_ERR_HTTPD_RESULT_TRUNC");
        reveal_strlit("[ESP_ERR_HTTPD_RESULT_TRUNC]: Result string truncated");
        reveal_strlit("Result string truncated");
        assert("[ESP_ERR_HTTPD_RESULT_TRUNC]: Result string truncated"@ =~= seq!['['] + "ESP_ERR_HTTPD_RESULT_TRUNC"@ + seq![']', ':', ' '] + "Result string truncated"@);
    } else if i == 189 {
        assert(ESP_IDF_ERROR_CODES@[i] == 0xb005);
        reveal_strlit("ESP_ERR_HTTPD_RESP_HDR");
        reveal_strlit("[ESP_ERR_HTTPD_RESP_HDR]: Response header field larger than supported");
        reveal_strlit("Response header field larger than supported");
        assert("[ESP_ERR_HTTPD_RESP_HDR]: Response header field larger than supported"@ =~= seq!['['] + "ESP_ERR_HTTPD_RESP_HDR"@ + seq![']', ':', ' '] + "Response header field larger than supported"@);
    } else if i == 190 {
        assert(ESP_IDF_ERROR_CODES@[i] == 0xb006);
        reveal_strlit("ESP_ERR_HTTPD_RESP_SEND");
        reveal_strlit("[ESP_ERR_HTTPD_RESP_SEND]: Error occurred while sending response packet");
        reveal_strlit("Error occurred while sending response packet");
        assert("[ESP_ERR_HTTPD_RESP_SEND]: Error occurred while sending response packet"@ =~= seq!['['] + "ESP_ERR_HTTPD_RESP_SEND"@ + seq![']', ':', ' '] + "Error occurred while sending response packet"@);
    } else if i == 191 {
        assert(ESP_IDF_ERROR_CODES@[i] == 0xb007);
        reveal_strlit("ESP_ERR_HTTPD_ALLOC_MEM");
        reveal_strlit("[ESP_ERR_HTTPD_ALLOC_MEM]: Failed to dynamically allocate memory for resource");
        reveal_strlit("Failed to dynamically allocate memory for resource");
        assert("[ESP_ERR_HTTPD_ALLOC_MEM]: Failed to dynamically allocate memory for resource"@ =~= seq!['['] + "ESP_ERR_HTTPD_ALLOC_MEM"@ + seq![']', ':', ' '] + "Failed to dynamically allocate memory for resource"@);
    }
}

/// Entries 192 to 207 of the table match the name and explanation lists.
proof fn lemma_table_entries_12(i: int)
    requires
        192 <= i < 208,
    ensures
        table_entry_matches(i),
{
    if i == 192 {
        assert(ESP_IDF_ERROR_CODES@[i] == 0xb008);
        reveal_strlit("ESP_ERR_HTTPD_TASK");
        reveal_strlit("[ESP_ERR_HTTPD_TASK]: Failed to launch server task/thread");
        reveal_strlit("Failed to launch server task/thread");
        assert("[ESP_ERR_HTTPD_TASK]: Failed to launch server task/thread"@ =~= seq!['['] + "ESP_ERR_HTTPD_TASK"@ + seq![']', ':', ' '] + "Failed to launch server task/thread"@);
    } else if i == 193 {
        assert(ESP_IDF_ERROR_CODES@[i] == 0xc001);
        reveal_strlit("ESP_ERR_HW_CRYPTO_DS_HMAC_FAIL");
        reveal_strlit("[ESP_ERR_HW_CRYPTO_DS_HMAC_FAIL]: HMAC peripheral problem");
        reveal_strlit("HMAC peripheral problem");
        assert("[ESP_ERR_HW_CRYPTO_DS_HMAC_FAIL]: HMAC peripheral problem"@ =~= seq!['['] + "ESP_ERR_HW_CRYPTO_DS_HMAC_FAIL"@ + seq![']', ':', ' '] + "HMAC peripheral problem"@);
    } else if i == 194 {
        assert(ESP_IDF_ERROR_CODES@[i] == 0xc002);
        reveal_strlit("ESP_ERR_HW_CRYPTO_DS_INVALID_KEY");
        reveal_strlit("[ESP_ERR_HW_CRYPTO_DS_INVALID_KEY]: No further error description");
        reveal_strlit("No further error description");
        assert("[ESP_ERR_HW_CRYPTO_DS_INVALID_KEY]: No further error description"@ =~= seq!['['] + "ESP_ERR_HW_CRYPTO_DS_INVALID_KEY"@ + seq![']', ':', ' '] + "No further error description"@);
    } else if i == 195 {
        assert(ESP_IDF_ERROR_CODES@[i] == 0xc004);
        reveal_strlit("ESP_ERR_HW_CRYPTO_DS_INVALID_DIGEST");
        reveal_strlit("[ESP_ERR_HW_CRYPTO_DS_INVALID_DIGEST]: No further error description");
        reveal_strlit("No further error description");
        assert("[ESP_ERR_HW_CRYPTO_DS_INVALID_DIGEST]: No further error description"@ =~= seq!['['] + "ESP_ERR_HW_CRYPTO_DS_INVALID_DIGEST"@ + seq![']', ':', ' '] + "No further error description"@);
    } else if i == 196 {
        assert(ESP_IDF_ERROR_CODES@[i] == 0xc005);
        reveal_strlit("ESP_ERR_HW_CRYPTO_DS_INVALID_PADDING");
        reveal_strlit("[ESP_ERR_HW_CRYPTO_DS_INVALID_PADDING]: No further error description");
        reveal_strlit("No further error description");
        assert("[ESP_ERR_HW_CRYPTO_DS_INVALID_PADDING]: No further error description"@ =~= seq!['['] + "ESP_ERR_HW_CRYPTO_DS_INVALID_PADDING"@ + seq![']', ':', ' '] + "No further error description"@);
    } else if i == 197 {
        assert(ESP_IDF_ERROR_CODES@[i] == 0xd001);
        reveal_strlit("ESP_ERR_MEMPROT_MEMORY_TYPE_INVALID");
        reveal_strlit("[ESP_ERR_MEMPROT_MEMORY_TYPE_INVALID]: No further error description");
        reveal_strlit("No further error description");
        assert("[ESP_ERR_MEMPROT_MEMORY_TYPE_INVALID]: No further error description"@ =~= seq!['['] + "ESP_ERR_MEMPROT_MEMORY_TYPE_INVALID"@ + seq![']', ':', ' '] + "No further error description"@);
    } else if i == 198 {
        assert(ESP_IDF_ERROR_CODES@[i] == 0xd002);
        reveal_strlit("ESP_ERR_MEMPROT_SPLIT_ADDR_INVALID");
        reveal_strlit("[ESP_ERR_MEMPROT_SPLIT_ADDR_INVALID]: No further error description");
        reveal_strlit("No further error description");
        assert("[ESP_ERR_MEMPROT_SPLIT_ADDR_INVALID]: No further error description"@ =~= seq!['['] + "ESP_ERR_MEMPROT_SPLIT_ADDR_INVALID"@ + seq![']', ':', ' '] + "No further error description"@);
    } else if i == 199 {
        assert(ESP_IDF_ERROR_CODES@[i] == 0xd003);
        reveal_strlit("ESP_ERR_MEMPROT_SPLIT_ADDR_OUT_OF_RANGE");
        reveal_strlit("[ESP_ERR_MEMPROT_SPLIT_ADDR_OUT_OF_RANGE]: No further error description");
        reveal_strlit("No further error description");
        assert("[ESP_ERR_MEMPROT_SPLIT_ADDR_OUT_OF_RANGE]: No further error description"@ =~= seq!['['] + "ESP_ERR_MEMPROT_SPLIT_ADDR_OUT_OF_RANGE"@ + seq![']', ':', ' '] + "No further error description"@);
    } else if i == 200 {
        assert(ESP_IDF_ERROR_CODES@[i] == 0xd004);
        reveal_strlit("ESP_ERR_MEMPROT_SPLIT_ADDR_UNALIGNED");
        reveal_strlit("[ESP_ERR_MEMPROT_SPLIT_ADDR_UNALIGNED]: No further error description");
        reveal_strlit("No further error description");
        assert("[ESP_ERR_MEMPROT_SPLIT_ADDR_UNALIGNED]: No further error description"@ =~= seq!['['] + "ESP_ERR_MEMPROT_SPLIT_ADDR_UNALIGNED"@ + seq![']', ':', ' '] + "No further error description"@);
    } else if i == 201 {
        assert(ESP_IDF_ERROR_CODES@[i] == 0xd005);
        reveal_strlit("ESP_ERR_MEMPROT_UNIMGMT_BLOCK_INVALID");
        reveal_strlit("[ESP_ERR_MEMPROT_UNIMGMT_BLOCK_INVALID]: No further error description");
        reveal_strlit("No further error description");
        assert("[ESP_ERR_MEMPROT_UNIMGMT_BLOCK_INVALID]: No further error description"@ =~= seq!['['] + "ESP_ERR_MEMPROT_UNIMGMT_BLOCK_INVALID"@ + seq![']', ':', ' '] + "No further error description"@);
    } else if i == 202 {
        assert(ESP_IDF_ERROR_CODES@[i] == 0xd006);
        reveal_strlit("ESP_ERR_MEMPROT_WORLD_INVALID");
        reveal_strlit("[ESP_ERR_MEMPROT_WORLD_INVALID]: No further error description");
        reveal_strlit("No further error description");
        assert("[ESP_ERR_MEMPROT_WORLD_INVALID]: No further error description"@ =~= seq!['['] + "ESP_ERR_MEMPROT_WORLD_INVALID"@ + seq![']', ':', ' '] + "No further error description"@);
    } else if i == 203 {
        assert(ESP_IDF_ERROR_CODES@[i] == 0xd007);
        reveal_strlit("ESP_ERR_MEMPROT_AREA_INVALID");
        reveal_strlit("[ESP_ERR_MEMPROT_AREA_INVALID]: No further error description");
        reveal_strlit("No further error description");
        assert("[ESP_ERR_MEMPROT_AREA_INVALID]: No further error description"@ =~= seq!['['] + "ESP_ERR_MEMPROT_AREA_INVALID"@ + seq![']', ':', ' '] + "No further error description"@);
    } else if i == 204 {
        assert(ESP_IDF_ERROR_CODES@[i] == 0xd008);
        reveal_strlit("ESP_ERR_MEMPROT_CPUID_INVALID");
        reveal_strlit("[ESP_ERR_MEMPROT_CPUID_INVALID]: No further error description");
        reveal_strlit("No further error description");
        assert("[ESP_ERR_MEMPROT_CPUID_INVALID]: No further error description"@ =~= seq!['['] + "ESP_ERR_MEMPROT_CPUID_INVALID"@ + seq![']', ':', ' '] + "No further error description"@);
    } else if i == 205 {
        assert(ESP_IDF_ERROR_CODES@[i] == 0xe001);
        reveal_strlit("ESP_ERR_TCP_TRANSPORT_CONNECTION_TIMEOUT");
        reveal_strlit("[ESP_ERR_TCP_TRANSPORT_CONNECTION_TIMEOUT]: Connection has timed out");
        reveal_strlit("Connection has timed out");
        assert("[ESP_ERR_TCP_TRANSPORT_CONNECTION_TIMEOUT]: Connection has timed out"@ =~= seq!['['] + "ESP_ERR_TCP_TRANSPORT_CONNECTION_TIMEOUT"@ + seq![']', ':', ' '] + "Connection has timed out"@);
    } else if i == 206 {
        assert(ESP_IDF_ERROR_CODES@[i] == 0xe002);
        reveal_strlit("ESP_ERR_TCP_TRANSPORT_CONNECTION_CLOSED_BY_FIN");
        reveal_strlit("[ESP_ERR_TCP_TRANSPORT_CONNECTION_CLOSED_BY_FIN]: Read FIN from peer and the connection has closed (in a clean way)");
        reveal_strlit("Read FIN from peer and the connection has closed (in a clean way)");
        assert("[ESP_ERR_TCP_TRANSPORT_CONNECTION_CLOSED_BY_FIN]: Read FIN from peer and the connection has closed (in a clean way)"@ =~= seq!['['] + "ESP_ERR_TCP_TRANSPORT_CONNECTION_CLOSED_BY_FIN"@ + seq![']', ':', ' '] + "Read FIN from peer and the connection has closed (in a clean way)"@);
    } else if i == 207 {
        assert(ESP_IDF_ERROR_CODES@[i] == 0xe003);
        reveal_strlit("ESP_ERR_TCP_TRANSPORT_CONNECTION_FAILED");
        reveal_strlit("[ESP_ERR_TCP_TRANSPORT_CONNECTION_FAILED]: Failed to connect to the peer");
        reveal_strlit("Failed to connect to the peer");
        assert("[ESP_ERR_TCP_TRANSPORT_CONNECTION_FAILED]: Failed to connect to the peer"@ =~= seq!['['] + "ESP_ERR_TCP_TRANSPORT_CONNECTION_FAILED"@ + seq![']', ':', ' '] + "Failed to connect to the peer"@);
    }
}

/// Entries 208 to 212 of the table match the name and explanation lists.
proof fn lemma_table_entries_13(i: int)
    requires
        208 <= i < 213,
    ensures
        table_entry_matches(i),
{
    if i == 208 {
        assert(ESP_IDF_ERROR_CODES@[i] == 0xe004);
        reveal_strlit("ESP_ERR_TCP_TRANSPORT_NO_MEM");
        reveal_strlit("[ESP_ERR_TCP_TRANSPORT_NO_MEM]: Memory allocation failed");
        reveal_strlit("Memory allocation failed");
        assert("[ESP_ERR_TCP_TRANSPORT_NO_MEM]: Memory allocation failed"@ =~= seq!['['] + "ESP_ERR_TCP_TRANSPORT_NO_MEM"@ + seq![']', ':', ' '] + "Memory allocation failed"@);
    } else if i == 209 {
        assert(ESP_IDF_ERROR_CODES@[i] == 0xf001);
        reveal_strlit("ESP_ERR_NVS_SEC_HMAC_KEY_NOT_FOUND");
        reveal_strlit("[ESP_ERR_NVS_SEC_HMAC_KEY_NOT_FOUND]: HMAC Key required to generate the NVS encryption keys not found");
        reveal_strlit("HMAC Key required to generate the NVS encryption keys not found");
        assert("[ESP_ERR_NVS_SEC_HMAC_KEY_NOT_FOUND]: HMAC Key required to generate the NVS encryption keys not found"@ =~= seq!['['] + "ESP_ERR_NVS_SEC_HMAC_KEY_NOT_FOUND"@ + seq![']', ':', ' '] + "HMAC Key required to generate the NVS encryption keys not found"@);
    } else if i == 210 {
        assert(ESP_IDF_ERROR_CODES@[i] == 0xf002);
        reveal_strlit("ESP_ERR_NVS_SEC_HMAC_KEY_BLK_ALREADY_USED");
        reveal_strlit("[ESP_ERR_NVS_SEC_HMAC_KEY_BLK_ALREADY_USED]: Provided eFuse block for HMAC key generation is already in use");
        reveal_strlit("Provided eFuse block for HMAC key generation is already in use");
        assert("[ESP_ERR_NVS_SEC_HMAC_KEY_BLK_ALREADY_USED]: Provided eFuse block for HMAC key generation is already in use"@ =~= seq!['['] + "ESP_ERR_NVS_SEC_HMAC_KEY_BLK_ALREADY_USED"@ + seq![']', ':', ' '] + "Provided eFuse block for HMAC key generation is already in use"@);
    } else if i == 211 {
        assert(ESP_IDF_ERROR_CODES@[i] == 0xf003);
        reveal_strlit("ESP_ERR_NVS_SEC_HMAC_KEY_GENERATION_FAILED");
        reveal_strlit("[ESP_ERR_NVS_SEC_HMAC_KEY_GENERATION_FAILED]: Failed to generate/write the HMAC key to eFuse");
        reveal_strlit("Failed to generate/write the HMAC key to eFuse");
        assert("[ESP_ERR_NVS_SEC_HMAC_KEY_GENERATION_FAILED]: Failed to generate/write the HMAC key to eFuse"@ =~= seq!['['] + "ESP_ERR_NVS_SEC_HMAC_KEY_GENERATION_FAILED"@ + seq![']', ':', ' '] + "Failed to generate/write the HMAC key to eFuse"@);
    } else if i == 212 {
        assert(ESP_IDF_ERROR_CODES@[i] == 0xf004);
        reveal_strlit("ESP_ERR_NVS_SEC_HMAC_XTS_KEYS_DERIV_FAILED");
        reveal_strlit("[ESP_ERR_NVS_SEC_HMAC_XTS_KEYS_DERIV_FAILED]: Failed to derive the NVS encryption keys based on the HMAC-based scheme");
        reveal_strlit("Failed to derive the NVS encryption keys based on the HMAC-based scheme");
        assert("[ESP_ERR_NVS_SEC_HMAC_XTS_KEYS_DERIV_FAILED]: Failed to derive the NVS encryption keys based on the HMAC-based scheme"@ =~= seq!['['] + "ESP_ERR_NVS_SEC_HMAC_XTS_KEYS_DERIV_FAILED"@ + seq![']', ':', ' '] + "Failed to derive the NVS encryption keys based on the HMAC-based scheme"@);
    }
}

/// Every entry of the table gives the listed code the listed ESP-IDF name, and a
/// description made of that name in brackets, a colon, a space and the listed
/// ESP-IDF explanation of the code.
pub proof fn lemma_table_entries(i: int)
    requires
        0 <= i < 213,
    ensures
        table_entry_matches(i),
{
    if i < 16 {
        lemma_table_entries_0(i);
    } else if i < 32 {
        lemma_table_entries_1(i);
    } else if i < 48 {
        lemma_table_entries_2(i);
    } else if i < 64 {
        lemma_table_entries_3(i);
    } else if i < 80 {
        lemma_table_entries_4(i);
    } else if i < 96 {
        lemma_table_entries_5(i);
    } else if i < 112 {
        lemma_table_entries_6(i);
    } else if i < 128 {
        lemma_table_entries_7(i);
    } else if i < 144 {
        lemma_table_entries_8(i);
    } else if i < 160 {
        lemma_table_entries_9(i);
    } else if i < 176 {
        lemma_table_entries_10(i);
    } else if i < 192 {
        lemma_table_entries_11(i);
    } else if i < 208 {
        lemma_table_entries_12(i);
    } else {
        lemma_table_entries_13(i);
    }
}

} // verus!
