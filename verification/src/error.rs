//! The engine's status-code taxonomy: the closed set of named status codes
//! grouped by subsystem, the distinguished success value, and classification
//! of raw numeric statuses into this set.

use vstd::prelude::*;

verus! {

/// One engine status code. `Success` is the distinguished success value;
/// `Unknown` is the catch-all for a numeric status that matches no named code.
#[derive(Debug, Clone, Copy, PartialEq, Eq, Structural)]
pub enum TaosCode {
    /// Success, 0
    Success,
    /// RPC_ACTION_IN_PROGRESS: Action in progress
    RpcActionInProgress,
    /// RPC_AUTH_REQUIRED: Authentication required
    RpcAuthRequired,
    /// RPC_AUTH_FAILURE: Authentication failure
    RpcAuthFailure,
    /// RPC_REDIRECT: Redirect
    RpcRedirect,
    /// RPC_NOT_READY: System not ready
    RpcNotReady,
    /// RPC_ALREADY_PROCESSED: Message already processed
    RpcAlreadyProcessed,
    /// RPC_LAST_SESSION_NOT_FINISHED: Last session not finished
    RpcLastSessionNotFinished,
    /// RPC_MISMATCHED_LINK_ID: Mismatched meter id
    RpcMismatchedLinkId,
    /// RPC_TOO_SLOW: Processing of request timed out
    RpcTooSlow,
    /// RPC_MAX_SESSIONS: Number of sessions reached limit
    RpcMaxSessions,
    /// RPC_NETWORK_UNAVAIL: Unable to establish connection
    RpcNetworkUnavail,
    /// RPC_APP_ERROR: Unexpected generic error in RPC
    RpcAppError,
    /// RPC_UNEXPECTED_RESPONSE: Unexpected response
    RpcUnexpectedResponse,
    /// RPC_INVALID_VALUE: Invalid value
    RpcInvalidValue,
    /// RPC_INVALID_TRAN_ID: Invalid transaction id
    RpcInvalidTranId,
    /// RPC_INVALID_SESSION_ID: Invalid session id
    RpcInvalidSessionId,
    /// RPC_INVALID_MSG_TYPE: Invalid message type
    RpcInvalidMsgType,
    /// RPC_INVALID_RESPONSE_TYPE: Invalid response type
    RpcInvalidResponseType,
    /// RPC_INVALID_TIME_STAMP: Client and server's time is not synchronized
    RpcInvalidTimeStamp,
    /// APP_NOT_READY: Database not ready
    AppNotReady,
    /// RPC_FQDN_ERROR: Unable to resolve FQDN
    RpcFqdnError,
    /// RPC_INVALID_VERSION: Invalid app version
    RpcInvalidVersion,
    /// COM_OPS_NOT_SUPPORT: Operation not supported
    ComOpsNotSupport,
    /// COM_MEMORY_CORRUPTED: Memory corrupted
    ComMemoryCorrupted,
    /// COM_OUT_OF_MEMORY: Out of memory
    ComOutOfMemory,
    /// COM_INVALID_CFG_MSG: Invalid config message
    ComInvalidCfgMsg,
    /// COM_FILE_CORRUPTED: Data file corrupted
    ComFileCorrupted,
    /// REF_NO_MEMORY: Ref out of memory
    RefNoMemory,
    /// REF_FULL: too many Ref Objs
    RefFull,
    /// REF_ID_REMOVED: Ref ID is removed
    RefIdRemoved,
    /// REF_INVALID_ID: Invalid Ref ID
    RefInvalidId,
    /// REF_ALREADY_EXIST: Ref is already there
    RefAlreadyExist,
    /// REF_NOT_EXIST: Ref is not there
    RefNotExist,
    /// TSC_INVALID_SQL: Invalid SQL statement
    TscInvalidSql,
    /// TSC_INVALID_QHANDLE: Invalid qhandle
    TscInvalidQhandle,
    /// TSC_INVALID_TIME_STAMP: Invalid combination of client/service time
    TscInvalidTimeStamp,
    /// TSC_INVALID_VALUE: Invalid value in client
    TscInvalidValue,
    /// TSC_INVALID_VERSION: Invalid client version
    TscInvalidVersion,
    /// TSC_INVALID_IE: Invalid client ie
    TscInvalidIe,
    /// TSC_INVALID_FQDN: Invalid host name
    TscInvalidFqdn,
    /// TSC_INVALID_USER_LENGTH: Invalid user name
    TscInvalidUserLength,
    /// TSC_INVALID_PASS_LENGTH: Invalid password
    TscInvalidPassLength,
    /// TSC_INVALID_DB_LENGTH: Database name too long
    TscInvalidDbLength,
    /// TSC_INVALID_TABLE_ID_LENGTH: Table name too long
    TscInvalidTableIdLength,
    /// TSC_INVALID_CONNECTION: Invalid connection
    TscInvalidConnection,
    /// TSC_OUT_OF_MEMORY: System out of memory
    TscOutOfMemory,
    /// TSC_NO_DISKSPACE: System out of disk space
    TscNoDiskspace,
    /// TSC_QUERY_CACHE_ERASED: Query cache erased
    TscQueryCacheErased,
    /// TSC_QUERY_CANCELLED: Query terminated
    TscQueryCancelled,
    /// TSC_SORTED_RES_TOO_MANY: Result set too large to be sorted
    TscSortedResTooMany,
    /// TSC_APP_ERROR: Application error
    TscAppError,
    /// TSC_ACTION_IN_PROGRESS: Action in progress
    TscActionInProgress,
    /// TSC_DISCONNECTED: Disconnected from service
    TscDisconnected,
    /// TSC_NO_WRITE_AUTH: No write permission
    TscNoWriteAuth,
    /// TSC_CONN_KILLED: Connection killed
    TscConnKilled,
    /// TSC_SQL_SYNTAX_ERROR: Syntax error in SQL
    TscSqlSyntaxError,
    /// TSC_DB_NOT_SELECTED: Database not specified or available
    TscDbNotSelected,
    /// TSC_INVALID_TABLE_NAME: Table does not exist
    TscInvalidTableName,
    /// TSC_EXCEED_SQL_LIMIT: SQL statement too long check maxSQLLength config
    TscExceedSqlLimit,
    /// MND_MSG_NOT_PROCESSED: Message not processed
    MndMsgNotProcessed,
    /// MND_ACTION_IN_PROGRESS: Message is progressing
    MndActionInProgress,
    /// MND_ACTION_NEED_REPROCESSED: Messag need to be reprocessed
    MndActionNeedReprocessed,
    /// MND_NO_RIGHTS: Insufficient privilege for operation
    MndNoRights,
    /// MND_APP_ERROR: Unexpected generic error in mnode
    MndAppError,
    /// MND_INVALID_CONNECTION: Invalid message connection
    MndInvalidConnection,
    /// MND_INVALID_MSG_VERSION: Incompatible protocol version
    MndInvalidMsgVersion,
    /// MND_INVALID_MSG_LEN: Invalid message length
    MndInvalidMsgLen,
    /// MND_INVALID_MSG_TYPE: Invalid message type
    MndInvalidMsgType,
    /// MND_TOO_MANY_SHELL_CONNS: Too many connections
    MndTooManyShellConns,
    /// MND_OUT_OF_MEMORY: Out of memory in mnode
    MndOutOfMemory,
    /// MND_INVALID_SHOWOBJ: Data expired
    MndInvalidShowobj,
    /// MND_INVALID_QUERY_ID: Invalid query id
    MndInvalidQueryId,
    /// MND_INVALID_STREAM_ID: Invalid stream id
    MndInvalidStreamId,
    /// MND_INVALID_CONN_ID: Invalid connection id
    MndInvalidConnId,
    /// MND_MNODE_IS_RUNNING: mnode is alreay running
    MndMnodeIsRunning,
    /// MND_FAILED_TO_CONFIG_SYNC: failed to config sync
    MndFailedToConfigSync,
    /// MND_FAILED_TO_START_SYNC: failed to start sync
    MndFailedToStartSync,
    /// MND_FAILED_TO_CREATE_DIR: failed to create mnode dir
    MndFailedToCreateDir,
    /// MND_FAILED_TO_INIT_STEP: failed to init components
    MndFailedToInitStep,
    /// MND_SDB_OBJ_ALREADY_THERE: Object already there
    MndSdbObjAlreadyThere,
    /// MND_SDB_ERROR: Unexpected generic error in sdb
    MndSdbError,
    /// MND_SDB_INVALID_TABLE_TYPE: Invalid table type
    MndSdbInvalidTableType,
    /// MND_SDB_OBJ_NOT_THERE: Object not there
    MndSdbObjNotThere,
    /// MND_SDB_INVAID_META_ROW: Invalid meta row
    MndSdbInvaidMetaRow,
    /// MND_SDB_INVAID_KEY_TYPE: Invalid key type
    MndSdbInvaidKeyType,
    /// MND_DNODE_ALREADY_EXIST: DNode already exists
    MndDnodeAlreadyExist,
    /// MND_DNODE_NOT_EXIST: DNode does not exist
    MndDnodeNotExist,
    /// MND_VGROUP_NOT_EXIST: VGroup does not exist
    MndVgroupNotExist,
    /// MND_NO_REMOVE_MASTER: Master DNode cannot be removed
    MndNoRemoveMaster,
    /// MND_NO_ENOUGH_DNODES: Out of DNodes
    MndNoEnoughDnodes,
    /// MND_CLUSTER_CFG_INCONSISTENT: Cluster cfg inconsistent
    MndClusterCfgInconsistent,
    /// MND_INVALID_DNODE_CFG_OPTION: Invalid dnode cfg option
    MndInvalidDnodeCfgOption,
    /// MND_BALANCE_ENABLED: Balance already enabled
    MndBalanceEnabled,
    /// MND_VGROUP_NOT_IN_DNODE: Vgroup not in dnode
    MndVgroupNotInDnode,
    /// MND_VGROUP_ALREADY_IN_DNODE: Vgroup already in dnode
    MndVgroupAlreadyInDnode,
    /// MND_DNODE_NOT_FREE: Dnode not avaliable
    MndDnodeNotFree,
    /// MND_INVALID_CLUSTER_ID: Cluster id not match
    MndInvalidClusterId,
    /// MND_NOT_READY: Cluster not ready
    MndNotReady,
    /// MND_DNODE_ID_NOT_CONFIGURED: Dnode Id not configured
    MndDnodeIdNotConfigured,
    /// MND_DNODE_EP_NOT_CONFIGURED: Dnode Ep not configured
    MndDnodeEpNotConfigured,
    /// MND_ACCT_ALREADY_EXIST: Account already exists
    MndAcctAlreadyExist,
    /// MND_INVALID_ACCT: Invalid account
    MndInvalidAcct,
    /// MND_INVALID_ACCT_OPTION: Invalid account options
    MndInvalidAcctOption,
    /// MND_ACCT_EXPIRED: Account authorization has expired
    MndAcctExpired,
    /// MND_USER_ALREADY_EXIST: User already exists
    MndUserAlreadyExist,
    /// MND_INVALID_USER: Invalid user
    MndInvalidUser,
    /// MND_INVALID_USER_FORMAT: Invalid user format
    MndInvalidUserFormat,
    /// MND_INVALID_PASS_FORMAT: Invalid password format
    MndInvalidPassFormat,
    /// MND_NO_USER_FROM_CONN: Can not get user from conn
    MndNoUserFromConn,
    /// MND_TOO_MANY_USERS: Too many users
    MndTooManyUsers,
    /// MND_TABLE_ALREADY_EXIST: Table already exists
    MndTableAlreadyExist,
    /// MND_INVALID_TABLE_ID: Table name too long
    MndInvalidTableId,
    /// MND_INVALID_TABLE_NAME: Table does not exist
    MndInvalidTableName,
    /// MND_INVALID_TABLE_TYPE: Invalid table type in tsdb
    MndInvalidTableType,
    /// MND_TOO_MANY_TAGS: Too many tags
    MndTooManyTags,
    /// MND_TOO_MANY_COLUMNS: Too many columns
    MndTooManyColumns,
    /// MND_TOO_MANY_TIMESERIES: Too many time series
    MndTooManyTimeseries,
    /// MND_NOT_SUPER_TABLE: Not super table
    MndNotSuperTable,
    /// MND_COL_NAME_TOO_LONG: Tag name too long
    MndColNameTooLong,
    /// MND_TAG_ALREAY_EXIST: Tag already exists
    MndTagAlreayExist,
    /// MND_TAG_NOT_EXIST: Tag does not exist
    MndTagNotExist,
    /// MND_FIELD_ALREAY_EXIST: Field already exists
    MndFieldAlreayExist,
    /// MND_FIELD_NOT_EXIST: Field does not exist
    MndFieldNotExist,
    /// MND_INVALID_STABLE_NAME: Super table does not exist
    MndInvalidStableName,
    /// MND_INVALID_CREATE_TABLE_MSG: Invalid create table message
    MndInvalidCreateTableMsg,
    /// MND_DB_NOT_SELECTED: Database not specified or available
    MndDbNotSelected,
    /// MND_DB_ALREADY_EXIST: Database already exists
    MndDbAlreadyExist,
    /// MND_INVALID_DB_OPTION: Invalid database options
    MndInvalidDbOption,
    /// MND_INVALID_DB: Invalid database name
    MndInvalidDb,
    /// MND_MONITOR_DB_FORBIDDEN: Cannot delete monitor database
    MndMonitorDbForbidden,
    /// MND_TOO_MANY_DATABASES: Too many databases for account
    MndTooManyDatabases,
    /// MND_DB_IN_DROPPING: Database not available
    MndDbInDropping,
    /// MND_VGROUP_NOT_READY: Database unsynced
    MndVgroupNotReady,
    /// MND_INVALID_DB_OPTION_DAYS: Invalid database option: days out of range
    MndInvalidDbOptionDays,
    /// MND_INVALID_DB_OPTION_KEEP: Invalid database option: keep >= keep1 >= keep0 >= days
    MndInvalidDbOptionKeep,
    /// MND_INVALID_TOPIC: Invalid topic nam
    MndInvalidTopic,
    /// MND_INVALID_TOPIC_OPTION: Invalid topic optio
    MndInvalidTopicOption,
    /// MND_INVALID_TOPIC_PARTITONS: Invalid topic partitons num, valid range: [1, 1000
    MndInvalidTopicPartitons,
    /// MND_TOPIC_ALREADY_EXIST: Topic already exist
    MndTopicAlreadyExist,
    /// DND_MSG_NOT_PROCESSED: Message not processed
    DndMsgNotProcessed,
    /// DND_OUT_OF_MEMORY: Dnode out of memory
    DndOutOfMemory,
    /// DND_NO_WRITE_ACCESS: No permission for disk files in dnode
    DndNoWriteAccess,
    /// DND_INVALID_MSG_LEN: Invalid message length
    DndInvalidMsgLen,
    /// DND_ACTION_IN_PROGRESS: Action in progress
    DndActionInProgress,
    /// DND_TOO_MANY_VNODES: Too many vnode directories
    DndTooManyVnodes,
    /// VND_ACTION_IN_PROGRESS: Action in progress
    VndActionInProgress,
    /// VND_MSG_NOT_PROCESSED: Message not processed
    VndMsgNotProcessed,
    /// VND_ACTION_NEED_REPROCESSED: Action need to be reprocessed
    VndActionNeedReprocessed,
    /// VND_INVALID_VGROUP_ID: Invalid Vgroup ID
    VndInvalidVgroupId,
    /// VND_INIT_FAILED: Vnode initialization failed
    VndInitFailed,
    /// VND_NO_DISKSPACE: System out of disk space
    VndNoDiskspace,
    /// VND_NO_DISK_PERMISSIONS: No write permission for disk files
    VndNoDiskPermissions,
    /// VND_NO_SUCH_FILE_OR_DIR: Missing data file
    VndNoSuchFileOrDir,
    /// VND_OUT_OF_MEMORY: Out of memory
    VndOutOfMemory,
    /// VND_APP_ERROR: Unexpected generic error in vnode
    VndAppError,
    /// VND_INVALID_VRESION_FILE: Invalid version file
    VndInvalidVresionFile,
    /// VND_IS_FULL: Database memory is full for commit failed
    VndIsFull,
    /// VND_IS_FLOWCTRL: Database memory is full for waiting commit
    VndIsFlowctrl,
    /// VND_IS_DROPPING: Database is dropping
    VndIsDropping,
    /// VND_IS_BALANCING: Database is balancing
    VndIsBalancing,
    /// VND_NOT_SYNCED: Database suspended
    VndNotSynced,
    /// VND_NO_WRITE_AUTH: Database write operation denied
    VndNoWriteAuth,
    /// VND_IS_SYNCING: Database is syncing
    VndIsSyncing,
    /// TDB_INVALID_TABLE_ID: Invalid table ID
    TdbInvalidTableId,
    /// TDB_INVALID_TABLE_TYPE: Invalid table type
    TdbInvalidTableType,
    /// TDB_IVD_TB_SCHEMA_VERSION: Invalid table schema version
    TdbIvdTbSchemaVersion,
    /// TDB_TABLE_ALREADY_EXIST: Table already exists
    TdbTableAlreadyExist,
    /// TDB_INVALID_CONFIG: Invalid configuration
    TdbInvalidConfig,
    /// TDB_INIT_FAILED: Tsdb init failed
    TdbInitFailed,
    /// TDB_NO_DISKSPACE: No diskspace for tsdb
    TdbNoDiskspace,
    /// TDB_NO_DISK_PERMISSIONS: No permission for disk files
    TdbNoDiskPermissions,
    /// TDB_FILE_CORRUPTED: Data file(s) corrupted
    TdbFileCorrupted,
    /// TDB_OUT_OF_MEMORY: Out of memory
    TdbOutOfMemory,
    /// TDB_TAG_VER_OUT_OF_DATE: Tag too old
    TdbTagVerOutOfDate,
    /// TDB_TIMESTAMP_OUT_OF_RANGE: Timestamp data out of range
    TdbTimestampOutOfRange,
    /// TDB_SUBMIT_MSG_MSSED_UP: Submit message is messed up
    TdbSubmitMsgMssedUp,
    /// TDB_INVALID_ACTION: Invalid operation
    TdbInvalidAction,
    /// TDB_INVALID_CREATE_TB_MSG: Invalid creation of table
    TdbInvalidCreateTbMsg,
    /// TDB_NO_TABLE_DATA_IN_MEM: No table data in memory skiplist
    TdbNoTableDataInMem,
    /// TDB_FILE_ALREADY_EXISTS: File already exists
    TdbFileAlreadyExists,
    /// TDB_TABLE_RECONFIGURE: Need to reconfigure table
    TdbTableReconfigure,
    /// TDB_IVD_CREATE_TABLE_INFO: Invalid information to create table
    TdbIvdCreateTableInfo,
    /// TDB_NO_AVAIL_DISK: No available disk
    TdbNoAvailDisk,
    /// TDB_MESSED_MSG: TSDB messed message
    TdbMessedMsg,
    /// TDB_IVLD_TAG_VAL: TSDB invalid tag value
    TdbIvldTagVal,
    /// QRY_INVALID_QHANDLE: Invalid handle
    QryInvalidQhandle,
    /// QRY_INVALID_MSG: Invalid message
    QryInvalidMsg,
    /// QRY_NO_DISKSPACE: No diskspace for query
    QryNoDiskspace,
    /// QRY_OUT_OF_MEMORY: System out of memory
    QryOutOfMemory,
    /// QRY_APP_ERROR: Unexpected generic error in query
    QryAppError,
    /// QRY_DUP_JOIN_KEY: Duplicated join key
    QryDupJoinKey,
    /// QRY_EXCEED_TAGS_LIMIT: Tag conditon too many
    QryExceedTagsLimit,
    /// QRY_NOT_READY: Query not ready
    QryNotReady,
    /// QRY_HAS_RSP: Query should response
    QryHasRsp,
    /// QRY_IN_EXEC: Multiple retrieval of this query
    QryInExec,
    /// QRY_TOO_MANY_TIMEWINDOW: Too many time window in query
    QryTooManyTimewindow,
    /// QRY_NOT_ENOUGH_BUFFER: Query buffer limit has reached
    QryNotEnoughBuffer,
    /// QRY_INCONSISTAN: File inconsistency in replica
    QryInconsistan,
    /// GRANT_EXPIRED: License expired
    GrantExpired,
    /// GRANT_DNODE_LIMITED: DNode creation limited by licence
    GrantDnodeLimited,
    /// GRANT_ACCT_LIMITED: Account creation limited by license
    GrantAcctLimited,
    /// GRANT_TIMESERIES_LIMITED: Table creation limited by license
    GrantTimeseriesLimited,
    /// GRANT_DB_LIMITED: DB creation limited by license
    GrantDbLimited,
    /// GRANT_USER_LIMITED: User creation limited by license
    GrantUserLimited,
    /// GRANT_CONN_LIMITED: Conn creation limited by license
    GrantConnLimited,
    /// GRANT_STREAM_LIMITED: Stream creation limited by license
    GrantStreamLimited,
    /// GRANT_SPEED_LIMITED: Write speed limited by license
    GrantSpeedLimited,
    /// GRANT_STORAGE_LIMITED: Storage capacity limited by license
    GrantStorageLimited,
    /// GRANT_QUERYTIME_LIMITED: Query time limited by license
    GrantQuerytimeLimited,
    /// GRANT_CPU_LIMITED: CPU cores limited by license
    GrantCpuLimited,
    /// SYN_INVALID_CONFIG: Invalid Sync Configuration
    SynInvalidConfig,
    /// SYN_NOT_ENABLED: Sync module not enabled
    SynNotEnabled,
    /// SYN_INVALID_VERSION: Invalid Sync version
    SynInvalidVersion,
    /// SYN_CONFIRM_EXPIRED: Sync confirm expired
    SynConfirmExpired,
    /// SYN_TOO_MANY_FWDINFO: Too many sync fwd infos
    SynTooManyFwdinfo,
    /// SYN_MISMATCHED_PROTOCOL: Mismatched protocol
    SynMismatchedProtocol,
    /// SYN_MISMATCHED_CLUSTERID: Mismatched clusterId
    SynMismatchedClusterid,
    /// SYN_MISMATCHED_SIGNATURE: Mismatched signature
    SynMismatchedSignature,
    /// SYN_INVALID_CHECKSUM: Invalid msg checksum
    SynInvalidChecksum,
    /// SYN_INVALID_MSGLEN: Invalid msg length
    SynInvalidMsglen,
    /// SYN_INVALID_MSGTYPE: Invalid msg type
    SynInvalidMsgtype,
    /// WAL_APP_ERROR: Unexpected generic error in wal
    WalAppError,
    /// WAL_FILE_CORRUPTED: WAL file is corrupted
    WalFileCorrupted,
    /// WAL_SIZE_LIMIT: WAL size exceeds limit
    WalSizeLimit,
    /// HTTP_SERVER_OFFLINE: http server is not onlin
    HttpServerOffline,
    /// HTTP_UNSUPPORT_URL: url is not support
    HttpUnsupportUrl,
    /// HTTP_INVALID_URL: nvalid url format
    HttpInvalidUrl,
    /// HTTP_NO_ENOUGH_MEMORY: no enough memory
    HttpNoEnoughMemory,
    /// HTTP_REQUSET_TOO_BIG: request size is too big
    HttpRequsetTooBig,
    /// HTTP_NO_AUTH_INFO: no auth info input
    HttpNoAuthInfo,
    /// HTTP_NO_MSG_INPUT: request is empty
    HttpNoMsgInput,
    /// HTTP_NO_SQL_INPUT: no sql input
    HttpNoSqlInput,
    /// HTTP_NO_EXEC_USEDB: no need to execute use db cmd
    HttpNoExecUsedb,
    /// HTTP_SESSION_FULL: session list was full
    HttpSessionFull,
    /// HTTP_GEN_TAOSD_TOKEN_ERR: generate taosd token error
    HttpGenTaosdTokenErr,
    /// HTTP_INVALID_MULTI_REQUEST: size of multi request is 0
    HttpInvalidMultiRequest,
    /// HTTP_CREATE_GZIP_FAILED: failed to create gzip
    HttpCreateGzipFailed,
    /// HTTP_FINISH_GZIP_FAILED: failed to finish gzip
    HttpFinishGzipFailed,
    /// HTTP_LOGIN_FAILED: failed to login
    HttpLoginFailed,
    /// HTTP_INVALID_VERSION: invalid http version
    HttpInvalidVersion,
    /// HTTP_INVALID_CONTENT_LENGTH: invalid content length
    HttpInvalidContentLength,
    /// HTTP_INVALID_AUTH_TYPE: invalid type of Authorization
    HttpInvalidAuthType,
    /// HTTP_INVALID_AUTH_FORMAT: invalid format of Authorization
    HttpInvalidAuthFormat,
    /// HTTP_INVALID_BASIC_AUTH: invalid basic Authorization
    HttpInvalidBasicAuth,
    /// HTTP_INVALID_TAOSD_AUTH: invalid taosd Authorization
    HttpInvalidTaosdAuth,
    /// HTTP_PARSE_METHOD_FAILED: failed to parse method
    HttpParseMethodFailed,
    /// HTTP_PARSE_TARGET_FAILED: failed to parse target
    HttpParseTargetFailed,
    /// HTTP_PARSE_VERSION_FAILED: failed to parse http version
    HttpParseVersionFailed,
    /// HTTP_PARSE_SP_FAILED: failed to parse sp
    HttpParseSpFailed,
    /// HTTP_PARSE_STATUS_FAILED: failed to parse status
    HttpParseStatusFailed,
    /// HTTP_PARSE_PHRASE_FAILED: failed to parse phrase
    HttpParsePhraseFailed,
    /// HTTP_PARSE_CRLF_FAILED: failed to parse crlf
    HttpParseCrlfFailed,
    /// HTTP_PARSE_HEADER_FAILED: failed to parse header
    HttpParseHeaderFailed,
    /// HTTP_PARSE_HEADER_KEY_FAILED: failed to parse header key
    HttpParseHeaderKeyFailed,
    /// HTTP_PARSE_HEADER_VAL_FAILED: failed to parse header val
    HttpParseHeaderValFailed,
    /// HTTP_PARSE_CHUNK_SIZE_FAILED: failed to parse chunk size
    HttpParseChunkSizeFailed,
    /// HTTP_PARSE_CHUNK_FAILED: failed to parse chunk
    HttpParseChunkFailed,
    /// HTTP_PARSE_END_FAILED: failed to parse end section
    HttpParseEndFailed,
    /// HTTP_PARSE_INVALID_STATE: invalid parse state
    HttpParseInvalidState,
    /// HTTP_PARSE_ERROR_STATE: failed to parse error section
    HttpParseErrorState,
    /// HTTP_GC_QUERY_NULL: query size is 0
    HttpGcQueryNull,
    /// HTTP_GC_QUERY_SIZE: query size can not more than 100
    HttpGcQuerySize,
    /// HTTP_GC_REQ_PARSE_ERROR: parse grafana json error
    HttpGcReqParseError,
    /// HTTP_TG_DB_NOT_INPUT: database name can not be null
    HttpTgDbNotInput,
    /// HTTP_TG_DB_TOO_LONG: database name too long
    HttpTgDbTooLong,
    /// HTTP_TG_INVALID_JSON: invalid telegraf json fromat
    HttpTgInvalidJson,
    /// HTTP_TG_METRICS_NULL: metrics size is 0
    HttpTgMetricsNull,
    /// HTTP_TG_METRICS_SIZE: metrics size can not more than 1K
    HttpTgMetricsSize,
    /// HTTP_TG_METRIC_NULL: metric name not find
    HttpTgMetricNull,
    /// HTTP_TG_METRIC_TYPE: metric name type should be string
    HttpTgMetricType,
    /// HTTP_TG_METRIC_NAME_NULL: metric name length is 0
    HttpTgMetricNameNull,
    /// HTTP_TG_METRIC_NAME_LONG: metric name length too long
    HttpTgMetricNameLong,
    /// HTTP_TG_TIMESTAMP_NULL: timestamp not find
    HttpTgTimestampNull,
    /// HTTP_TG_TIMESTAMP_TYPE: timestamp type should be integer
    HttpTgTimestampType,
    /// HTTP_TG_TIMESTAMP_VAL_NULL: timestamp value smaller than 0
    HttpTgTimestampValNull,
    /// HTTP_TG_TAGS_NULL: tags not find
    HttpTgTagsNull,
    /// HTTP_TG_TAGS_SIZE_0: tags size is 0
    HttpTgTagsSize0,
    /// HTTP_TG_TAGS_SIZE_LONG: tags size too long
    HttpTgTagsSizeLong,
    /// HTTP_TG_TAG_NULL: tag is null
    HttpTgTagNull,
    /// HTTP_TG_TAG_NAME_NULL: tag name is null
    HttpTgTagNameNull,
    /// HTTP_TG_TAG_NAME_SIZE: tag name length too long
    HttpTgTagNameSize,
    /// HTTP_TG_TAG_VALUE_TYPE: tag value type should be number or string
    HttpTgTagValueType,
    /// HTTP_TG_TAG_VALUE_NULL: tag value is null
    HttpTgTagValueNull,
    /// HTTP_TG_TABLE_NULL: table is null
    HttpTgTableNull,
    /// HTTP_TG_TABLE_SIZE: table name length too long
    HttpTgTableSize,
    /// HTTP_TG_FIELDS_NULL: fields not find
    HttpTgFieldsNull,
    /// HTTP_TG_FIELDS_SIZE_0: fields size is 0
    HttpTgFieldsSize0,
    /// HTTP_TG_FIELDS_SIZE_LONG: fields size too long
    HttpTgFieldsSizeLong,
    /// HTTP_TG_FIELD_NULL: field is null
    HttpTgFieldNull,
    /// HTTP_TG_FIELD_NAME_NULL: field name is null
    HttpTgFieldNameNull,
    /// HTTP_TG_FIELD_NAME_SIZE: field name length too long
    HttpTgFieldNameSize,
    /// HTTP_TG_FIELD_VALUE_TYPE: field value type should be number or string
    HttpTgFieldValueType,
    /// HTTP_TG_FIELD_VALUE_NULL: field value is null
    HttpTgFieldValueNull,
    /// HTTP_TG_HOST_NOT_STRING: host type should be string
    HttpTgHostNotString,
    /// HTTP_TG_STABLE_NOT_EXIST: stable not exist
    HttpTgStableNotExist,
    /// HTTP_OP_DB_NOT_INPUT: database name can not be null
    HttpOpDbNotInput,
    /// HTTP_OP_DB_TOO_LONG: database name too long
    HttpOpDbTooLong,
    /// HTTP_OP_INVALID_JSON: invalid opentsdb json fromat
    HttpOpInvalidJson,
    /// HTTP_OP_METRICS_NULL: metrics size is 0
    HttpOpMetricsNull,
    /// HTTP_OP_METRICS_SIZE: metrics size can not more than 10K
    HttpOpMetricsSize,
    /// HTTP_OP_METRIC_NULL: metric name not find
    HttpOpMetricNull,
    /// HTTP_OP_METRIC_TYPE: metric name type should be string
    HttpOpMetricType,
    /// HTTP_OP_METRIC_NAME_NULL: metric name length is 0
    HttpOpMetricNameNull,
    /// HTTP_OP_METRIC_NAME_LONG: metric name length can not more than 22
    HttpOpMetricNameLong,
    /// HTTP_OP_TIMESTAMP_NULL: timestamp not find
    HttpOpTimestampNull,
    /// HTTP_OP_TIMESTAMP_TYPE: timestamp type should be integer
    HttpOpTimestampType,
    /// HTTP_OP_TIMESTAMP_VAL_NULL: timestamp value smaller than 0
    HttpOpTimestampValNull,
    /// HTTP_OP_TAGS_NULL: tags not find
    HttpOpTagsNull,
    /// HTTP_OP_TAGS_SIZE_0: tags size is 0
    HttpOpTagsSize0,
    /// HTTP_OP_TAGS_SIZE_LONG: tags size too long
    HttpOpTagsSizeLong,
    /// HTTP_OP_TAG_NULL: tag is null
    HttpOpTagNull,
    /// HTTP_OP_TAG_NAME_NULL: tag name is null
    HttpOpTagNameNull,
    /// HTTP_OP_TAG_NAME_SIZE: tag name length too long
    HttpOpTagNameSize,
    /// HTTP_OP_TAG_VALUE_TYPE: tag value type should be boolean number or string
    HttpOpTagValueType,
    /// HTTP_OP_TAG_VALUE_NULL: tag value is null
    HttpOpTagValueNull,
    /// HTTP_OP_TAG_VALUE_TOO_LONG: tag value can not more than 64
    HttpOpTagValueTooLong,
    /// HTTP_OP_VALUE_NULL: value not find
    HttpOpValueNull,
    /// HTTP_OP_VALUE_TYPE: value type should be boolean number or string
    HttpOpValueType,
    /// ODBC_OOM: out of memory
    OdbcOom,
    /// ODBC_CONV_CHAR_NOT_NUM: convertion not a valid literal input
    OdbcConvCharNotNum,
    /// ODBC_CONV_UNDEF: convertion undefined
    OdbcConvUndef,
    /// ODBC_CONV_TRUNC_FRAC: convertion fractional truncated
    OdbcConvTruncFrac,
    /// ODBC_CONV_TRUNC: convertion truncated
    OdbcConvTrunc,
    /// ODBC_CONV_NOT_SUPPORT: convertion not supported
    OdbcConvNotSupport,
    /// ODBC_CONV_OOR: convertion numeric value out of range
    OdbcConvOor,
    /// ODBC_OUT_OF_RANGE: out of range
    OdbcOutOfRange,
    /// ODBC_NOT_SUPPORT: not supported yet
    OdbcNotSupport,
    /// ODBC_INVALID_HANDLE: invalid handle
    OdbcInvalidHandle,
    /// ODBC_NO_RESULT: no result set
    OdbcNoResult,
    /// ODBC_NO_FIELDS: no fields returned
    OdbcNoFields,
    /// ODBC_INVALID_CURSOR: invalid cursor
    OdbcInvalidCursor,
    /// ODBC_STATEMENT_NOT_READY: statement not ready
    OdbcStatementNotReady,
    /// ODBC_CONNECTION_BUSY: connection still busy
    OdbcConnectionBusy,
    /// ODBC_BAD_CONNSTR: bad connection string
    OdbcBadConnstr,
    /// ODBC_BAD_ARG: bad argument
    OdbcBadArg,
    /// ODBC_CONV_NOT_VALID_TS: not a valid timestamp
    OdbcConvNotValidTs,
    /// ODBC_CONV_SRC_TOO_LARGE: src too large
    OdbcConvSrcTooLarge,
    /// ODBC_CONV_SRC_BAD_SEQ: src bad sequence
    OdbcConvSrcBadSeq,
    /// ODBC_CONV_SRC_INCOMPLETE: src incomplete
    OdbcConvSrcIncomplete,
    /// ODBC_CONV_SRC_GENERAL: src general
    OdbcConvSrcGeneral,
    /// FS_OUT_OF_MEMORY: tfs out of memory
    FsOutOfMemory,
    /// FS_INVLD_CFG: tfs invalid mount config
    FsInvldCfg,
    /// FS_TOO_MANY_MOUNT: tfs too many mount
    FsTooManyMount,
    /// FS_DUP_PRIMARY: tfs duplicate primary mount
    FsDupPrimary,
    /// FS_NO_PRIMARY_DISK: tfs no primary mount
    FsNoPrimaryDisk,
    /// FS_NO_MOUNT_AT_TIER: tfs no mount at tier
    FsNoMountAtTier,
    /// FS_FILE_ALREADY_EXISTS: tfs file already exists
    FsFileAlreadyExists,
    /// FS_INVLD_LEVEL: tfs invalid level
    FsInvldLevel,
    /// FS_NO_VALID_DISK: tfs no valid disk
    FsNoValidDisk,
    /// Catch-all for an unrecognized numeric status.
    Unknown,
}

impl TaosCode {
    /// The numeric value the engine uses for this code.
    pub open spec fn spec_value(self) -> int {
        match self {
            TaosCode::Success => 0x0,
            TaosCode::RpcActionInProgress => 0x1,
            TaosCode::RpcAuthRequired => 0x2,
            TaosCode::RpcAuthFailure => 0x3,
            TaosCode::RpcRedirect => 0x4,
            TaosCode::RpcNotReady => 0x5,
            TaosCode::RpcAlreadyProcessed => 0x6,
            TaosCode::RpcLastSessionNotFinished => 0x7,
            TaosCode::RpcMismatchedLinkId => 0x8,
            TaosCode::RpcTooSlow => 0x9,
            TaosCode::RpcMaxSessions => 0xa,
            TaosCode::RpcNetworkUnavail => 0xb,
            TaosCode::RpcAppError => 0xc,
            TaosCode::RpcUnexpectedResponse => 0xd,
            TaosCode::RpcInvalidValue => 0xe,
            TaosCode::RpcInvalidTranId => 0xf,
            TaosCode::RpcInvalidSessionId => 0x10,
            TaosCode::RpcInvalidMsgType => 0x11,
            TaosCode::RpcInvalidResponseType => 0x12,
            TaosCode::RpcInvalidTimeStamp => 0x13,
            TaosCode::AppNotReady => 0x14,
            TaosCode::RpcFqdnError => 0x15,
            TaosCode::RpcInvalidVersion => 0x16,
            TaosCode::ComOpsNotSupport => 0x100,
            TaosCode::ComMemoryCorrupted => 0x101,
            TaosCode::ComOutOfMemory => 0x102,
            TaosCode::ComInvalidCfgMsg => 0x103,
            TaosCode::ComFileCorrupted => 0x104,
            TaosCode::RefNoMemory => 0x105,
            TaosCode::RefFull => 0x106,
            TaosCode::RefIdRemoved => 0x107,
            TaosCode::RefInvalidId => 0x108,
            TaosCode::RefAlreadyExist => 0x109,
            TaosCode::RefNotExist => 0x10a,
            TaosCode::TscInvalidSql => 0x200,
            TaosCode::TscInvalidQhandle => 0x201,
            TaosCode::TscInvalidTimeStamp => 0x202,
            TaosCode::TscInvalidValue => 0x203,
            TaosCode::TscInvalidVersion => 0x204,
            TaosCode::TscInvalidIe => 0x205,
            TaosCode::TscInvalidFqdn => 0x206,
            TaosCode::TscInvalidUserLength => 0x207,
            TaosCode::TscInvalidPassLength => 0x208,
            TaosCode::TscInvalidDbLength => 0x209,
            TaosCode::TscInvalidTableIdLength => 0x20a,
            TaosCode::TscInvalidConnection => 0x20b,
            TaosCode::TscOutOfMemory => 0x20c,
            TaosCode::TscNoDiskspace => 0x20d,
            TaosCode::TscQueryCacheErased => 0x20e,
            TaosCode::TscQueryCancelled => 0x20f,
            TaosCode::TscSortedResTooMany => 0x210,
            TaosCode::TscAppError => 0x211,
            TaosCode::TscActionInProgress => 0x212,
            TaosCode::TscDisconnected => 0x213,
            TaosCode::TscNoWriteAuth => 0x214,
            TaosCode::TscConnKilled => 0x215,
            TaosCode::TscSqlSyntaxError => 0x216,
            TaosCode::TscDbNotSelected => 0x217,
            TaosCode::TscInvalidTableName => 0x218,
            TaosCode::TscExceedSqlLimit => 0x219,
            TaosCode::MndMsgNotProcessed => 0x300,
            TaosCode::MndActionInProgress => 0x301,
            TaosCode::MndActionNeedReprocessed => 0x302,
            TaosCode::MndNoRights => 0x303,
            TaosCode::MndAppError => 0x304,
            TaosCode::MndInvalidConnection => 0x305,
            TaosCode::MndInvalidMsgVersion => 0x306,
            TaosCode::MndInvalidMsgLen => 0x307,
            TaosCode::MndInvalidMsgType => 0x308,
            TaosCode::MndTooManyShellConns => 0x309,
            TaosCode::MndOutOfMemory => 0x30a,
            TaosCode::MndInvalidShowobj => 0x30b,
            TaosCode::MndInvalidQueryId => 0x30c,
            TaosCode::MndInvalidStreamId => 0x30d,
            TaosCode::MndInvalidConnId => 0x30e,
            TaosCode::MndMnodeIsRunning => 0x310,
            TaosCode::MndFailedToConfigSync => 0x311,
            TaosCode::MndFailedToStartSync => 0x312,
            TaosCode::MndFailedToCreateDir => 0x313,
            TaosCode::MndFailedToInitStep => 0x314,
            TaosCode::MndSdbObjAlreadyThere => 0x320,
            TaosCode::MndSdbError => 0x321,
            TaosCode::MndSdbInvalidTableType => 0x322,
            TaosCode::MndSdbObjNotThere => 0x323,
            TaosCode::MndSdbInvaidMetaRow => 0x324,
            TaosCode::MndSdbInvaidKeyType => 0x325,
            TaosCode::MndDnodeAlreadyExist => 0x330,
            TaosCode::MndDnodeNotExist => 0x331,
            TaosCode::MndVgroupNotExist => 0x332,
            TaosCode::MndNoRemoveMaster => 0x333,
            TaosCode::MndNoEnoughDnodes => 0x334,
            TaosCode::MndClusterCfgInconsistent => 0x335,
            TaosCode::MndInvalidDnodeCfgOption => 0x336,
            TaosCode::MndBalanceEnabled => 0x337,
            TaosCode::MndVgroupNotInDnode => 0x338,
            TaosCode::MndVgroupAlreadyInDnode => 0x339,
            TaosCode::MndDnodeNotFree => 0x33a,
            TaosCode::MndInvalidClusterId => 0x33b,
            TaosCode::MndNotReady => 0x33c,
            TaosCode::MndDnodeIdNotConfigured => 0x33d,
            TaosCode::MndDnodeEpNotConfigured => 0x33e,
            TaosCode::MndAcctAlreadyExist => 0x340,
            TaosCode::MndInvalidAcct => 0x341,
            TaosCode::MndInvalidAcctOption => 0x342,
            TaosCode::MndAcctExpired => 0x343,
            TaosCode::MndUserAlreadyExist => 0x350,
            TaosCode::MndInvalidUser => 0x351,
            TaosCode::MndInvalidUserFormat => 0x352,
            TaosCode::MndInvalidPassFormat => 0x353,
            TaosCode::MndNoUserFromConn => 0x354,
            TaosCode::MndTooManyUsers => 0x355,
            TaosCode::MndTableAlreadyExist => 0x360,
            TaosCode::MndInvalidTableId => 0x361,
            TaosCode::MndInvalidTableName => 0x362,
            TaosCode::MndInvalidTableType => 0x363,
            TaosCode::MndTooManyTags => 0x364,
            TaosCode::MndTooManyColumns => 0x365,
            TaosCode::MndTooManyTimeseries => 0x366,
            TaosCode::MndNotSuperTable => 0x367,
            TaosCode::MndColNameTooLong => 0x368,
            TaosCode::MndTagAlreayExist => 0x369,
            TaosCode::MndTagNotExist => 0x36a,
            TaosCode::MndFieldAlreayExist => 0x36b,
            TaosCode::MndFieldNotExist => 0x36c,
            TaosCode::MndInvalidStableName => 0x36d,
            TaosCode::MndInvalidCreateTableMsg => 0x36e,
            TaosCode::MndDbNotSelected => 0x380,
            TaosCode::MndDbAlreadyExist => 0x381,
            TaosCode::MndInvalidDbOption => 0x382,
            TaosCode::MndInvalidDb => 0x383,
            TaosCode::MndMonitorDbForbidden => 0x384,
            TaosCode::MndTooManyDatabases => 0x385,
            TaosCode::MndDbInDropping => 0x386,
            TaosCode::MndVgroupNotReady => 0x387,
            TaosCode::MndInvalidDbOptionDays => 0x390,
            TaosCode::MndInvalidDbOptionKeep => 0x391,
            TaosCode::MndInvalidTopic => 0x392,
            TaosCode::MndInvalidTopicOption => 0x393,
            TaosCode::MndInvalidTopicPartitons => 0x394,
            TaosCode::MndTopicAlreadyExist => 0x395,
            TaosCode::DndMsgNotProcessed => 0x400,
            TaosCode::DndOutOfMemory => 0x401,
            TaosCode::DndNoWriteAccess => 0x402,
            TaosCode::DndInvalidMsgLen => 0x403,
            TaosCode::DndActionInProgress => 0x404,
            TaosCode::DndTooManyVnodes => 0x405,
            TaosCode::VndActionInProgress => 0x500,
            TaosCode::VndMsgNotProcessed => 0x501,
            TaosCode::VndActionNeedReprocessed => 0x502,
            TaosCode::VndInvalidVgroupId => 0x503,
            TaosCode::VndInitFailed => 0x504,
            TaosCode::VndNoDiskspace => 0x505,
            TaosCode::VndNoDiskPermissions => 0x506,
            TaosCode::VndNoSuchFileOrDir => 0x507,
            TaosCode::VndOutOfMemory => 0x508,
            TaosCode::VndAppError => 0x509,
            TaosCode::VndInvalidVresionFile => 0x50a,
            TaosCode::VndIsFull => 0x50b,
            TaosCode::VndIsFlowctrl => 0x50c,
            TaosCode::VndIsDropping => 0x50d,
            TaosCode::VndIsBalancing => 0x50e,
            TaosCode::VndNotSynced => 0x511,
            TaosCode::VndNoWriteAuth => 0x512,
            TaosCode::VndIsSyncing => 0x513,
            TaosCode::TdbInvalidTableId => 0x600,
            TaosCode::TdbInvalidTableType => 0x601,
            TaosCode::TdbIvdTbSchemaVersion => 0x602,
            TaosCode::TdbTableAlreadyExist => 0x603,
            TaosCode::TdbInvalidConfig => 0x604,
            TaosCode::TdbInitFailed => 0x605,
            TaosCode::TdbNoDiskspace => 0x606,
            TaosCode::TdbNoDiskPermissions => 0x607,
            TaosCode::TdbFileCorrupted => 0x608,
            TaosCode::TdbOutOfMemory => 0x609,
            TaosCode::TdbTagVerOutOfDate => 0x60a,
            TaosCode::TdbTimestampOutOfRange => 0x60b,
            TaosCode::TdbSubmitMsgMssedUp => 0x60c,
            TaosCode::TdbInvalidAction => 0x60d,
            TaosCode::TdbInvalidCreateTbMsg => 0x60e,
            TaosCode::TdbNoTableDataInMem => 0x60f,
            TaosCode::TdbFileAlreadyExists => 0x610,
            TaosCode::TdbTableReconfigure => 0x611,
            TaosCode::TdbIvdCreateTableInfo => 0x612,
            TaosCode::TdbNoAvailDisk => 0x613,
            TaosCode::TdbMessedMsg => 0x614,
            TaosCode::TdbIvldTagVal => 0x615,
            TaosCode::QryInvalidQhandle => 0x700,
            TaosCode::QryInvalidMsg => 0x701,
            TaosCode::QryNoDiskspace => 0x702,
            TaosCode::QryOutOfMemory => 0x703,
            TaosCode::QryAppError => 0x704,
            TaosCode::QryDupJoinKey => 0x705,
            TaosCode::QryExceedTagsLimit => 0x706,
            TaosCode::QryNotReady => 0x707,
            TaosCode::QryHasRsp => 0x708,
            TaosCode::QryInExec => 0x709,
            TaosCode::QryTooManyTimewindow => 0x70a,
            TaosCode::QryNotEnoughBuffer => 0x70b,
            TaosCode::QryInconsistan => 0x70c,
            TaosCode::GrantExpired => 0x800,
            TaosCode::GrantDnodeLimited => 0x801,
            TaosCode::GrantAcctLimited => 0x802,
            TaosCode::GrantTimeseriesLimited => 0x803,
            TaosCode::GrantDbLimited => 0x804,
            TaosCode::GrantUserLimited => 0x805,
            TaosCode::GrantConnLimited => 0x806,
            TaosCode::GrantStreamLimited => 0x807,
            TaosCode::GrantSpeedLimited => 0x808,
            TaosCode::GrantStorageLimited => 0x809,
            TaosCode::GrantQuerytimeLimited => 0x80a,
            TaosCode::GrantCpuLimited => 0x80b,
            TaosCode::SynInvalidConfig => 0x900,
            TaosCode::SynNotEnabled => 0x901,
            TaosCode::SynInvalidVersion => 0x902,
            TaosCode::SynConfirmExpired => 0x903,
            TaosCode::SynTooManyFwdinfo => 0x904,
            TaosCode::SynMismatchedProtocol => 0x905,
            TaosCode::SynMismatchedClusterid => 0x906,
            TaosCode::SynMismatchedSignature => 0x907,
            TaosCode::SynInvalidChecksum => 0x908,
            TaosCode::SynInvalidMsglen => 0x909,
            TaosCode::SynInvalidMsgtype => 0x90a,
            TaosCode::WalAppError => 0x1000,
            TaosCode::WalFileCorrupted => 0x1001,
            TaosCode::WalSizeLimit => 0x1002,
            TaosCode::HttpServerOffline => 0x1100,
            TaosCode::HttpUnsupportUrl => 0x1101,
            TaosCode::HttpInvalidUrl => 0x1102,
            TaosCode::HttpNoEnoughMemory => 0x1103,
            TaosCode::HttpRequsetTooBig => 0x1104,
            TaosCode::HttpNoAuthInfo => 0x1105,
            TaosCode::HttpNoMsgInput => 0x1106,
            TaosCode::HttpNoSqlInput => 0x1107,
            TaosCode::HttpNoExecUsedb => 0x1108,
            TaosCode::HttpSessionFull => 0x1109,
            TaosCode::HttpGenTaosdTokenErr => 0x110a,
            TaosCode::HttpInvalidMultiRequest => 0x110b,
            TaosCode::HttpCreateGzipFailed => 0x110c,
            TaosCode::HttpFinishGzipFailed => 0x110d,
            TaosCode::HttpLoginFailed => 0x110e,
            TaosCode::HttpInvalidVersion => 0x1120,
            TaosCode::HttpInvalidContentLength => 0x1121,
            TaosCode::HttpInvalidAuthType => 0x1122,
            TaosCode::HttpInvalidAuthFormat => 0x1123,
            TaosCode::HttpInvalidBasicAuth => 0x1124,
            TaosCode::HttpInvalidTaosdAuth => 0x1125,
            TaosCode::HttpParseMethodFailed => 0x1126,
            TaosCode::HttpParseTargetFailed => 0x1127,
            TaosCode::HttpParseVersionFailed => 0x1128,
            TaosCode::HttpParseSpFailed => 0x1129,
            TaosCode::HttpParseStatusFailed => 0x112a,
            TaosCode::HttpParsePhraseFailed => 0x112b,
            TaosCode::HttpParseCrlfFailed => 0x112c,
            TaosCode::HttpParseHeaderFailed => 0x112d,
            TaosCode::HttpParseHeaderKeyFailed => 0x112e,
            TaosCode::HttpParseHeaderValFailed => 0x112f,
            TaosCode::HttpParseChunkSizeFailed => 0x1130,
            TaosCode::HttpParseChunkFailed => 0x1131,
            TaosCode::HttpParseEndFailed => 0x1132,
            TaosCode::HttpParseInvalidState => 0x1134,
            TaosCode::HttpParseErrorState => 0x1135,
            TaosCode::HttpGcQueryNull => 0x1150,
            TaosCode::HttpGcQuerySize => 0x1151,
            TaosCode::HttpGcReqParseError => 0x1152,
            TaosCode::HttpTgDbNotInput => 0x1160,
            TaosCode::HttpTgDbTooLong => 0x1161,
            TaosCode::HttpTgInvalidJson => 0x1162,
            TaosCode::HttpTgMetricsNull => 0x1163,
            TaosCode::HttpTgMetricsSize => 0x1164,
            TaosCode::HttpTgMetricNull => 0x1165,
            TaosCode::HttpTgMetricType => 0x1166,
            TaosCode::HttpTgMetricNameNull => 0x1167,
            TaosCode::HttpTgMetricNameLong => 0x1168,
            TaosCode::HttpTgTimestampNull => 0x1169,
            TaosCode::HttpTgTimestampType => 0x116a,
            TaosCode::HttpTgTimestampValNull => 0x116b,
            TaosCode::HttpTgTagsNull => 0x116c,
            TaosCode::HttpTgTagsSize0 => 0x116d,
            TaosCode::HttpTgTagsSizeLong => 0x116e,
            TaosCode::HttpTgTagNull => 0x116f,
            TaosCode::HttpTgTagNameNull => 0x1170,
            TaosCode::HttpTgTagNameSize => 0x1171,
            TaosCode::HttpTgTagValueType => 0x1172,
            TaosCode::HttpTgTagValueNull => 0x1173,
            TaosCode::HttpTgTableNull => 0x1174,
            TaosCode::HttpTgTableSize => 0x1175,
            TaosCode::HttpTgFieldsNull => 0x1176,
            TaosCode::HttpTgFieldsSize0 => 0x1177,
            TaosCode::HttpTgFieldsSizeLong => 0x1178,
            TaosCode::HttpTgFieldNull => 0x1179,
            TaosCode::HttpTgFieldNameNull => 0x117a,
            TaosCode::HttpTgFieldNameSize => 0x117b,
            TaosCode::HttpTgFieldValueType => 0x117c,
            TaosCode::HttpTgFieldValueNull => 0x117d,
            TaosCode::HttpTgHostNotString => 0x117e,
            TaosCode::HttpTgStableNotExist => 0x117f,
            TaosCode::HttpOpDbNotInput => 0x1190,
            TaosCode::HttpOpDbTooLong => 0x1191,
            TaosCode::HttpOpInvalidJson => 0x1192,
            TaosCode::HttpOpMetricsNull => 0x1193,
            TaosCode::HttpOpMetricsSize => 0x1194,
            TaosCode::HttpOpMetricNull => 0x1195,
            TaosCode::HttpOpMetricType => 0x1196,
            TaosCode::HttpOpMetricNameNull => 0x1197,
            TaosCode::HttpOpMetricNameLong => 0x1198,
            TaosCode::HttpOpTimestampNull => 0x1199,
            TaosCode::HttpOpTimestampType => 0x119a,
            TaosCode::HttpOpTimestampValNull => 0x119b,
            TaosCode::HttpOpTagsNull => 0x119c,
            TaosCode::HttpOpTagsSize0 => 0x119d,
            TaosCode::HttpOpTagsSizeLong => 0x119e,
            TaosCode::HttpOpTagNull => 0x119f,
            TaosCode::HttpOpTagNameNull => 0x11a0,
            TaosCode::HttpOpTagNameSize => 0x11a1,
            TaosCode::HttpOpTagValueType => 0x11a2,
            TaosCode::HttpOpTagValueNull => 0x11a3,
            TaosCode::HttpOpTagValueTooLong => 0x11a4,
            TaosCode::HttpOpValueNull => 0x11a5,
            TaosCode::HttpOpValueType => 0x11a6,
            TaosCode::OdbcOom => 0x2100,
            TaosCode::OdbcConvCharNotNum => 0x2101,
            TaosCode::OdbcConvUndef => 0x2102,
            TaosCode::OdbcConvTruncFrac => 0x2103,
            TaosCode::OdbcConvTrunc => 0x2104,
            TaosCode::OdbcConvNotSupport => 0x2105,
            TaosCode::OdbcConvOor => 0x2106,
            TaosCode::OdbcOutOfRange => 0x2107,
            TaosCode::OdbcNotSupport => 0x2108,
            TaosCode::OdbcInvalidHandle => 0x2109,
            TaosCode::OdbcNoResult => 0x210a,
            TaosCode::OdbcNoFields => 0x210b,
            TaosCode::OdbcInvalidCursor => 0x210c,
            TaosCode::OdbcStatementNotReady => 0x210d,
            TaosCode::OdbcConnectionBusy => 0x210e,
            TaosCode::OdbcBadConnstr => 0x210f,
            TaosCode::OdbcBadArg => 0x2110,
            TaosCode::OdbcConvNotValidTs => 0x2111,
            TaosCode::OdbcConvSrcTooLarge => 0x2112,
            TaosCode::OdbcConvSrcBadSeq => 0x2113,
            TaosCode::OdbcConvSrcIncomplete => 0x2114,
            TaosCode::OdbcConvSrcGeneral => 0x2115,
            TaosCode::FsOutOfMemory => 0x2200,
            TaosCode::FsInvldCfg => 0x2201,
            TaosCode::FsTooManyMount => 0x2202,
            TaosCode::FsDupPrimary => 0x2203,
            TaosCode::FsNoPrimaryDisk => 0x2204,
            TaosCode::FsNoMountAtTier => 0x2205,
            TaosCode::FsFileAlreadyExists => 0x2206,
            TaosCode::FsInvldLevel => 0x2207,
            TaosCode::FsNoValidDisk => 0x2208,
            TaosCode::Unknown => 0xffff,
        }
    }

    pub fn value(self) -> (r: i32)
        ensures
            r == self.spec_value(),
    {
        match self {
            TaosCode::Success => 0x0,
            TaosCode::RpcActionInProgress => 0x1,
            TaosCode::RpcAuthRequired => 0x2,
            TaosCode::RpcAuthFailure => 0x3,
            TaosCode::RpcRedirect => 0x4,
            TaosCode::RpcNotReady => 0x5,
            TaosCode::RpcAlreadyProcessed => 0x6,
            TaosCode::RpcLastSessionNotFinished => 0x7,
            TaosCode::RpcMismatchedLinkId => 0x8,
            TaosCode::RpcTooSlow => 0x9,
            TaosCode::RpcMaxSessions => 0xa,
            TaosCode::RpcNetworkUnavail => 0xb,
            TaosCode::RpcAppError => 0xc,
            TaosCode::RpcUnexpectedResponse => 0xd,
            TaosCode::RpcInvalidValue => 0xe,
            TaosCode::RpcInvalidTranId => 0xf,
            TaosCode::RpcInvalidSessionId => 0x10,
            TaosCode::RpcInvalidMsgType => 0x11,
            TaosCode::RpcInvalidResponseType => 0x12,
            TaosCode::RpcInvalidTimeStamp => 0x13,
            TaosCode::AppNotReady => 0x14,
            TaosCode::RpcFqdnError => 0x15,
            TaosCode::RpcInvalidVersion => 0x16,
            TaosCode::ComOpsNotSupport => 0x100,
            TaosCode::ComMemoryCorrupted => 0x101,
            TaosCode::ComOutOfMemory => 0x102,
            TaosCode::ComInvalidCfgMsg => 0x103,
            TaosCode::ComFileCorrupted => 0x104,
            TaosCode::RefNoMemory => 0x105,
            TaosCode::RefFull => 0x106,
            TaosCode::RefIdRemoved => 0x107,
            TaosCode::RefInvalidId => 0x108,
            TaosCode::RefAlreadyExist => 0x109,
            TaosCode::RefNotExist => 0x10a,
            TaosCode::TscInvalidSql => 0x200,
            TaosCode::TscInvalidQhandle => 0x201,
            TaosCode::TscInvalidTimeStamp => 0x202,
            TaosCode::TscInvalidValue => 0x203,
            TaosCode::TscInvalidVersion => 0x204,
            TaosCode::TscInvalidIe => 0x205,
            TaosCode::TscInvalidFqdn => 0x206,
            TaosCode::TscInvalidUserLength => 0x207,
            TaosCode::TscInvalidPassLength => 0x208,
            TaosCode::TscInvalidDbLength => 0x209,
            TaosCode::TscInvalidTableIdLength => 0x20a,
            TaosCode::TscInvalidConnection => 0x20b,
            TaosCode::TscOutOfMemory => 0x20c,
            TaosCode::TscNoDiskspace => 0x20d,
            TaosCode::TscQueryCacheErased => 0x20e,
            TaosCode::TscQueryCancelled => 0x20f,
            TaosCode::TscSortedResTooMany => 0x210,
            TaosCode::TscAppError => 0x211,
            TaosCode::TscActionInProgress => 0x212,
            TaosCode::TscDisconnected => 0x213,
            TaosCode::TscNoWriteAuth => 0x214,
            TaosCode::TscConnKilled => 0x215,
            TaosCode::TscSqlSyntaxError => 0x216,
            TaosCode::TscDbNotSelected => 0x217,
            TaosCode::TscInvalidTableName => 0x218,
            TaosCode::TscExceedSqlLimit => 0x219,
            TaosCode::MndMsgNotProcessed => 0x300,
            TaosCode::MndActionInProgress => 0x301,
            TaosCode::MndActionNeedReprocessed => 0x302,
            TaosCode::MndNoRights => 0x303,
            TaosCode::MndAppError => 0x304,
            TaosCode::MndInvalidConnection => 0x305,
            TaosCode::MndInvalidMsgVersion => 0x306,
            TaosCode::MndInvalidMsgLen => 0x307,
            TaosCode::MndInvalidMsgType => 0x308,
            TaosCode::MndTooManyShellConns => 0x309,
            TaosCode::MndOutOfMemory => 0x30a,
            TaosCode::MndInvalidShowobj => 0x30b,
            TaosCode::MndInvalidQueryId => 0x30c,
            TaosCode::MndInvalidStreamId => 0x30d,
            TaosCode::MndInvalidConnId => 0x30e,
            TaosCode::MndMnodeIsRunning => 0x310,
            TaosCode::MndFailedToConfigSync => 0x311,
            TaosCode::MndFailedToStartSync => 0x312,
            TaosCode::MndFailedToCreateDir => 0x313,
            TaosCode::MndFailedToInitStep => 0x314,
            TaosCode::MndSdbObjAlreadyThere => 0x320,
            TaosCode::MndSdbError => 0x321,
            TaosCode::MndSdbInvalidTableType => 0x322,
            TaosCode::MndSdbObjNotThere => 0x323,
            TaosCode::MndSdbInvaidMetaRow => 0x324,
            TaosCode::MndSdbInvaidKeyType => 0x325,
            TaosCode::MndDnodeAlreadyExist => 0x330,
            TaosCode::MndDnodeNotExist => 0x331,
            TaosCode::MndVgroupNotExist => 0x332,
            TaosCode::MndNoRemoveMaster => 0x333,
            TaosCode::MndNoEnoughDnodes => 0x334,
            TaosCode::MndClusterCfgInconsistent => 0x335,
            TaosCode::MndInvalidDnodeCfgOption => 0x336,
            TaosCode::MndBalanceEnabled => 0x337,
            TaosCode::MndVgroupNotInDnode => 0x338,
            TaosCode::MndVgroupAlreadyInDnode => 0x339,
            TaosCode::MndDnodeNotFree => 0x33a,
            TaosCode::MndInvalidClusterId => 0x33b,
            TaosCode::MndNotReady => 0x33c,
            TaosCode::MndDnodeIdNotConfigured => 0x33d,
            TaosCode::MndDnodeEpNotConfigured => 0x33e,
            TaosCode::MndAcctAlreadyExist => 0x340,
            TaosCode::MndInvalidAcct => 0x341,
            TaosCode::MndInvalidAcctOption => 0x342,
            TaosCode::MndAcctExpired => 0x343,
            TaosCode::MndUserAlreadyExist => 0x350,
            TaosCode::MndInvalidUser => 0x351,
            TaosCode::MndInvalidUserFormat => 0x352,
            TaosCode::MndInvalidPassFormat => 0x353,
            TaosCode::MndNoUserFromConn => 0x354,
            TaosCode::MndTooManyUsers => 0x355,
            TaosCode::MndTableAlreadyExist => 0x360,
            TaosCode::MndInvalidTableId => 0x361,
            TaosCode::MndInvalidTableName => 0x362,
            TaosCode::MndInvalidTableType => 0x363,
            TaosCode::MndTooManyTags => 0x364,
            TaosCode::MndTooManyColumns => 0x365,
            TaosCode::MndTooManyTimeseries => 0x366,
            TaosCode::MndNotSuperTable => 0x367,
            TaosCode::MndColNameTooLong => 0x368,
            TaosCode::MndTagAlreayExist => 0x369,
            TaosCode::MndTagNotExist => 0x36a,
            TaosCode::MndFieldAlreayExist => 0x36b,
            TaosCode::MndFieldNotExist => 0x36c,
            TaosCode::MndInvalidStableName => 0x36d,
            TaosCode::MndInvalidCreateTableMsg => 0x36e,
            TaosCode::MndDbNotSelected => 0x380,
            TaosCode::MndDbAlreadyExist => 0x381,
            TaosCode::MndInvalidDbOption => 0x382,
            TaosCode::MndInvalidDb => 0x383,
            TaosCode::MndMonitorDbForbidden => 0x384,
            TaosCode::MndTooManyDatabases => 0x385,
            TaosCode::MndDbInDropping => 0x386,
            TaosCode::MndVgroupNotReady => 0x387,
            TaosCode::MndInvalidDbOptionDays => 0x390,
            TaosCode::MndInvalidDbOptionKeep => 0x391,
            TaosCode::MndInvalidTopic => 0x392,
            TaosCode::MndInvalidTopicOption => 0x393,
            TaosCode::MndInvalidTopicPartitons => 0x394,
            TaosCode::MndTopicAlreadyExist => 0x395,
            TaosCode::DndMsgNotProcessed => 0x400,
            TaosCode::DndOutOfMemory => 0x401,
            TaosCode::DndNoWriteAccess => 0x402,
            TaosCode::DndInvalidMsgLen => 0x403,
            TaosCode::DndActionInProgress => 0x404,
            TaosCode::DndTooManyVnodes => 0x405,
            TaosCode::VndActionInProgress => 0x500,
            TaosCode::VndMsgNotProcessed => 0x501,
            TaosCode::VndActionNeedReprocessed => 0x502,
            TaosCode::VndInvalidVgroupId => 0x503,
            TaosCode::VndInitFailed => 0x504,
            TaosCode::VndNoDiskspace => 0x505,
            TaosCode::VndNoDiskPermissions => 0x506,
            TaosCode::VndNoSuchFileOrDir => 0x507,
            TaosCode::VndOutOfMemory => 0x508,
            TaosCode::VndAppError => 0x509,
            TaosCode::VndInvalidVresionFile => 0x50a,
            TaosCode::VndIsFull => 0x50b,
            TaosCode::VndIsFlowctrl => 0x50c,
            TaosCode::VndIsDropping => 0x50d,
            TaosCode::VndIsBalancing => 0x50e,
            TaosCode::VndNotSynced => 0x511,
            TaosCode::VndNoWriteAuth => 0x512,
            TaosCode::VndIsSyncing => 0x513,
            TaosCode::TdbInvalidTableId => 0x600,
            TaosCode::TdbInvalidTableType => 0x601,
            TaosCode::TdbIvdTbSchemaVersion => 0x602,
            TaosCode::TdbTableAlreadyExist => 0x603,
            TaosCode::TdbInvalidConfig => 0x604,
            TaosCode::TdbInitFailed => 0x605,
            TaosCode::TdbNoDiskspace => 0x606,
            TaosCode::TdbNoDiskPermissions => 0x607,
            TaosCode::TdbFileCorrupted => 0x608,
            TaosCode::TdbOutOfMemory => 0x609,
            TaosCode::TdbTagVerOutOfDate => 0x60a,
            TaosCode::TdbTimestampOutOfRange => 0x60b,
            TaosCode::TdbSubmitMsgMssedUp => 0x60c,
            TaosCode::TdbInvalidAction => 0x60d,
            TaosCode::TdbInvalidCreateTbMsg => 0x60e,
            TaosCode::TdbNoTableDataInMem => 0x60f,
            TaosCode::TdbFileAlreadyExists => 0x610,
            TaosCode::TdbTableReconfigure => 0x611,
            TaosCode::TdbIvdCreateTableInfo => 0x612,
            TaosCode::TdbNoAvailDisk => 0x613,
            TaosCode::TdbMessedMsg => 0x614,
            TaosCode::TdbIvldTagVal => 0x615,
            TaosCode::QryInvalidQhandle => 0x700,
            TaosCode::QryInvalidMsg => 0x701,
            TaosCode::QryNoDiskspace => 0x702,
            TaosCode::QryOutOfMemory => 0x703,
            TaosCode::QryAppError => 0x704,
            TaosCode::QryDupJoinKey => 0x705,
            TaosCode::QryExceedTagsLimit => 0x706,
            TaosCode::QryNotReady => 0x707,
            TaosCode::QryHasRsp => 0x708,
            TaosCode::QryInExec => 0x709,
            TaosCode::QryTooManyTimewindow => 0x70a,
            TaosCode::QryNotEnoughBuffer => 0x70b,
            TaosCode::QryInconsistan => 0x70c,
            TaosCode::GrantExpired => 0x800,
            TaosCode::GrantDnodeLimited => 0x801,
            TaosCode::GrantAcctLimited => 0x802,
            TaosCode::GrantTimeseriesLimited => 0x803,
            TaosCode::GrantDbLimited => 0x804,
            TaosCode::GrantUserLimited => 0x805,
            TaosCode::GrantConnLimited => 0x806,
            TaosCode::GrantStreamLimited => 0x807,
            TaosCode::GrantSpeedLimited => 0x808,
            TaosCode::GrantStorageLimited => 0x809,
            TaosCode::GrantQuerytimeLimited => 0x80a,
            TaosCode::GrantCpuLimited => 0x80b,
            TaosCode::SynInvalidConfig => 0x900,
            TaosCode::SynNotEnabled => 0x901,
            TaosCode::SynInvalidVersion => 0x902,
            TaosCode::SynConfirmExpired => 0x903,
            TaosCode::SynTooManyFwdinfo => 0x904,
            TaosCode::SynMismatchedProtocol => 0x905,
            TaosCode::SynMismatchedClusterid => 0x906,
            TaosCode::SynMismatchedSignature => 0x907,
            TaosCode::SynInvalidChecksum => 0x908,
            TaosCode::SynInvalidMsglen => 0x909,
            TaosCode::SynInvalidMsgtype => 0x90a,
            TaosCode::WalAppError => 0x1000,
            TaosCode::WalFileCorrupted => 0x1001,
            TaosCode::WalSizeLimit => 0x1002,
            TaosCode::HttpServerOffline => 0x1100,
            TaosCode::HttpUnsupportUrl => 0x1101,
            TaosCode::HttpInvalidUrl => 0x1102,
            TaosCode::HttpNoEnoughMemory => 0x1103,
            TaosCode::HttpRequsetTooBig => 0x1104,
            TaosCode::HttpNoAuthInfo => 0x1105,
            TaosCode::HttpNoMsgInput => 0x1106,
            TaosCode::HttpNoSqlInput => 0x1107,
            TaosCode::HttpNoExecUsedb => 0x1108,
            TaosCode::HttpSessionFull => 0x1109,
            TaosCode::HttpGenTaosdTokenErr => 0x110a,
            TaosCode::HttpInvalidMultiRequest => 0x110b,
            TaosCode::HttpCreateGzipFailed => 0x110c,
            TaosCode::HttpFinishGzipFailed => 0x110d,
            TaosCode::HttpLoginFailed => 0x110e,
            TaosCode::HttpInvalidVersion => 0x1120,
            TaosCode::HttpInvalidContentLength => 0x1121,
            TaosCode::HttpInvalidAuthType => 0x1122,
            TaosCode::HttpInvalidAuthFormat => 0x1123,
            TaosCode::HttpInvalidBasicAuth => 0x1124,
            TaosCode::HttpInvalidTaosdAuth => 0x1125,
            TaosCode::HttpParseMethodFailed => 0x1126,
            TaosCode::HttpParseTargetFailed => 0x1127,
            TaosCode::HttpParseVersionFailed => 0x1128,
            TaosCode::HttpParseSpFailed => 0x1129,
            TaosCode::HttpParseStatusFailed => 0x112a,
            TaosCode::HttpParsePhraseFailed => 0x112b,
            TaosCode::HttpParseCrlfFailed => 0x112c,
            TaosCode::HttpParseHeaderFailed => 0x112d,
            TaosCode::HttpParseHeaderKeyFailed => 0x112e,
            TaosCode::HttpParseHeaderValFailed => 0x112f,
            TaosCode::HttpParseChunkSizeFailed => 0x1130,
            TaosCode::HttpParseChunkFailed => 0x1131,
            TaosCode::HttpParseEndFailed => 0x1132,
            TaosCode::HttpParseInvalidState => 0x1134,
            TaosCode::HttpParseErrorState => 0x1135,
            TaosCode::HttpGcQueryNull => 0x1150,
            TaosCode::HttpGcQuerySize => 0x1151,
            TaosCode::HttpGcReqParseError => 0x1152,
            TaosCode::HttpTgDbNotInput => 0x1160,
            TaosCode::HttpTgDbTooLong => 0x1161,
            TaosCode::HttpTgInvalidJson => 0x1162,
            TaosCode::HttpTgMetricsNull => 0x1163,
            TaosCode::HttpTgMetricsSize => 0x1164,
            TaosCode::HttpTgMetricNull => 0x1165,
            TaosCode::HttpTgMetricType => 0x1166,
            TaosCode::HttpTgMetricNameNull => 0x1167,
            TaosCode::HttpTgMetricNameLong => 0x1168,
            TaosCode::HttpTgTimestampNull => 0x1169,
            TaosCode::HttpTgTimestampType => 0x116a,
            TaosCode::HttpTgTimestampValNull => 0x116b,
            TaosCode::HttpTgTagsNull => 0x116c,
            TaosCode::HttpTgTagsSize0 => 0x116d,
            TaosCode::HttpTgTagsSizeLong => 0x116e,
            TaosCode::HttpTgTagNull => 0x116f,
            TaosCode::HttpTgTagNameNull => 0x1170,
            TaosCode::HttpTgTagNameSize => 0x1171,
            TaosCode::HttpTgTagValueType => 0x1172,
            TaosCode::HttpTgTagValueNull => 0x1173,
            TaosCode::HttpTgTableNull => 0x1174,
            TaosCode::HttpTgTableSize => 0x1175,
            TaosCode::HttpTgFieldsNull => 0x1176,
            TaosCode::HttpTgFieldsSize0 => 0x1177,
            TaosCode::HttpTgFieldsSizeLong => 0x1178,
            TaosCode::HttpTgFieldNull => 0x1179,
            TaosCode::HttpTgFieldNameNull => 0x117a,
            TaosCode::HttpTgFieldNameSize => 0x117b,
            TaosCode::HttpTgFieldValueType => 0x117c,
            TaosCode::HttpTgFieldValueNull => 0x117d,
            TaosCode::HttpTgHostNotString => 0x117e,
            TaosCode::HttpTgStableNotExist => 0x117f,
            TaosCode::HttpOpDbNotInput => 0x1190,
            TaosCode::HttpOpDbTooLong => 0x1191,
            TaosCode::HttpOpInvalidJson => 0x1192,
            TaosCode::HttpOpMetricsNull => 0x1193,
            TaosCode::HttpOpMetricsSize => 0x1194,
            TaosCode::HttpOpMetricNull => 0x1195,
            TaosCode::HttpOpMetricType => 0x1196,
            TaosCode::HttpOpMetricNameNull => 0x1197,
            TaosCode::HttpOpMetricNameLong => 0x1198,
            TaosCode::HttpOpTimestampNull => 0x1199,
            TaosCode::HttpOpTimestampType => 0x119a,
            TaosCode::HttpOpTimestampValNull => 0x119b,
            TaosCode::HttpOpTagsNull => 0x119c,
            TaosCode::HttpOpTagsSize0 => 0x119d,
            TaosCode::HttpOpTagsSizeLong => 0x119e,
            TaosCode::HttpOpTagNull => 0x119f,
            TaosCode::HttpOpTagNameNull => 0x11a0,
            TaosCode::HttpOpTagNameSize => 0x11a1,
            TaosCode::HttpOpTagValueType => 0x11a2,
            TaosCode::HttpOpTagValueNull => 0x11a3,
            TaosCode::HttpOpTagValueTooLong => 0x11a4,
            TaosCode::HttpOpValueNull => 0x11a5,
            TaosCode::HttpOpValueType => 0x11a6,
            TaosCode::OdbcOom => 0x2100,
            TaosCode::OdbcConvCharNotNum => 0x2101,
            TaosCode::OdbcConvUndef => 0x2102,
            TaosCode::OdbcConvTruncFrac => 0x2103,
            TaosCode::OdbcConvTrunc => 0x2104,
            TaosCode::OdbcConvNotSupport => 0x2105,
            TaosCode::OdbcConvOor => 0x2106,
            TaosCode::OdbcOutOfRange => 0x2107,
            TaosCode::OdbcNotSupport => 0x2108,
            TaosCode::OdbcInvalidHandle => 0x2109,
            TaosCode::OdbcNoResult => 0x210a,
            TaosCode::OdbcNoFields => 0x210b,
            TaosCode::OdbcInvalidCursor => 0x210c,
            TaosCode::OdbcStatementNotReady => 0x210d,
            TaosCode::OdbcConnectionBusy => 0x210e,
            TaosCode::OdbcBadConnstr => 0x210f,
            TaosCode::OdbcBadArg => 0x2110,
            TaosCode::OdbcConvNotValidTs => 0x2111,
            TaosCode::OdbcConvSrcTooLarge => 0x2112,
            TaosCode::OdbcConvSrcBadSeq => 0x2113,
            TaosCode::OdbcConvSrcIncomplete => 0x2114,
            TaosCode::OdbcConvSrcGeneral => 0x2115,
            TaosCode::FsOutOfMemory => 0x2200,
            TaosCode::FsInvldCfg => 0x2201,
            TaosCode::FsTooManyMount => 0x2202,
            TaosCode::FsDupPrimary => 0x2203,
            TaosCode::FsNoPrimaryDisk => 0x2204,
            TaosCode::FsNoMountAtTier => 0x2205,
            TaosCode::FsFileAlreadyExists => 0x2206,
            TaosCode::FsInvldLevel => 0x2207,
            TaosCode::FsNoValidDisk => 0x2208,
            TaosCode::Unknown => 0xffff,
        }
    }

    pub open spec fn spec_code_group_0(v: int) -> TaosCode {
        if v == 0x0 { TaosCode::Success } else if v == 0x1 { TaosCode::RpcActionInProgress } else if v == 0x2 { TaosCode::RpcAuthRequired } else if v == 0x3 { TaosCode::RpcAuthFailure } else if v == 0x4 { TaosCode::RpcRedirect } else if v == 0x5 { TaosCode::RpcNotReady } else if v == 0x6 { TaosCode::RpcAlreadyProcessed } else if v == 0x7 { TaosCode::RpcLastSessionNotFinished } else if v == 0x8 { TaosCode::RpcMismatchedLinkId } else if v == 0x9 { TaosCode::RpcTooSlow } else if v == 0xa { TaosCode::RpcMaxSessions } else if v == 0xb { TaosCode::RpcNetworkUnavail } else if v == 0xc { TaosCode::RpcAppError } else if v == 0xd { TaosCode::RpcUnexpectedResponse } else if v == 0xe { TaosCode::RpcInvalidValue } else if v == 0xf { TaosCode::RpcInvalidTranId } else if v == 0x10 { TaosCode::RpcInvalidSessionId } else if v == 0x11 { TaosCode::RpcInvalidMsgType } else if v == 0x12 { TaosCode::RpcInvalidResponseType } else if v == 0x13 { TaosCode::RpcInvalidTimeStamp } else if v == 0x14 { TaosCode::AppNotReady } else if v == 0x15 { TaosCode::RpcFqdnError } else if v == 0x16 { TaosCode::RpcInvalidVersion } else if v == 0x100 { TaosCode::ComOpsNotSupport } else if v == 0x101 { TaosCode::ComMemoryCorrupted } else { TaosCode::Unknown }
    }

    pub open spec fn spec_code_group_1(v: int) -> TaosCode {
        if v == 0x102 { TaosCode::ComOutOfMemory } else if v == 0x103 { TaosCode::ComInvalidCfgMsg } else if v == 0x104 { TaosCode::ComFileCorrupted } else if v == 0x105 { TaosCode::RefNoMemory } else if v == 0x106 { TaosCode::RefFull } else if v == 0x107 { TaosCode::RefIdRemoved } else if v == 0x108 { TaosCode::RefInvalidId } else if v == 0x109 { TaosCode::RefAlreadyExist } else if v == 0x10a { TaosCode::RefNotExist } else if v == 0x200 { TaosCode::TscInvalidSql } else if v == 0x201 { TaosCode::TscInvalidQhandle } else if v == 0x202 { TaosCode::TscInvalidTimeStamp } else if v == 0x203 { TaosCode::TscInvalidValue } else if v == 0x204 { TaosCode::TscInvalidVersion } else if v == 0x205 { TaosCode::TscInvalidIe } else if v == 0x206 { TaosCode::TscInvalidFqdn } else if v == 0x207 { TaosCode::TscInvalidUserLength } else if v == 0x208 { TaosCode::TscInvalidPassLength } else if v == 0x209 { TaosCode::TscInvalidDbLength } else if v == 0x20a { TaosCode::TscInvalidTableIdLength } else if v == 0x20b { TaosCode::TscInvalidConnection } else if v == 0x20c { TaosCode::TscOutOfMemory } else if v == 0x20d { TaosCode::TscNoDiskspace } else if v == 0x20e { TaosCode::TscQueryCacheErased } else if v == 0x20f { TaosCode::TscQueryCancelled } else { TaosCode::Unknown }
    }

    pub open spec fn spec_code_group_2(v: int) -> TaosCode {
        if v == 0x210 { TaosCode::TscSortedResTooMany } else if v == 0x211 { TaosCode::TscAppError } else if v == 0x212 { TaosCode::TscActionInProgress } else if v == 0x213 { TaosCode::TscDisconnected } else if v == 0x214 { TaosCode::TscNoWriteAuth } else if v == 0x215 { TaosCode::TscConnKilled } else if v == 0x216 { TaosCode::TscSqlSyntaxError } else if v == 0x217 { TaosCode::TscDbNotSelected } else if v == 0x218 { TaosCode::TscInvalidTableName } else if v == 0x219 { TaosCode::TscExceedSqlLimit } else if v == 0x300 { TaosCode::MndMsgNotProcessed } else if v == 0x301 { TaosCode::MndActionInProgress } else if v == 0x302 { TaosCode::MndActionNeedReprocessed } else if v == 0x303 { TaosCode::MndNoRights } else if v == 0x304 { TaosCode::MndAppError } else if v == 0x305 { TaosCode::MndInvalidConnection } else if v == 0x306 { TaosCode::MndInvalidMsgVersion } else if v == 0x307 { TaosCode::MndInvalidMsgLen } else if v == 0x308 { TaosCode::MndInvalidMsgType } else if v == 0x309 { TaosCode::MndTooManyShellConns } else if v == 0x30a { TaosCode::MndOutOfMemory } else if v == 0x30b { TaosCode::MndInvalidShowobj } else if v == 0x30c { TaosCode::MndInvalidQueryId } else if v == 0x30d { TaosCode::MndInvalidStreamId } else if v == 0x30e { TaosCode::MndInvalidConnId } else { TaosCode::Unknown }
    }

    pub open spec fn spec_code_group_3(v: int) -> TaosCode {
        if v == 0x310 { TaosCode::MndMnodeIsRunning } else if v == 0x311 { TaosCode::MndFailedToConfigSync } else if v == 0x312 { TaosCode::MndFailedToStartSync } else if v == 0x313 { TaosCode::MndFailedToCreateDir } else if v == 0x314 { TaosCode::MndFailedToInitStep } else if v == 0x320 { TaosCode::MndSdbObjAlreadyThere } else if v == 0x321 { TaosCode::MndSdbError } else if v == 0x322 { TaosCode::MndSdbInvalidTableType } else if v == 0x323 { TaosCode::MndSdbObjNotThere } else if v == 0x324 { TaosCode::MndSdbInvaidMetaRow } else if v == 0x325 { TaosCode::MndSdbInvaidKeyType } else if v == 0x330 { TaosCode::MndDnodeAlreadyExist } else if v == 0x331 { TaosCode::MndDnodeNotExist } else if v == 0x332 { TaosCode::MndVgroupNotExist } else if v == 0x333 { TaosCode::MndNoRemoveMaster } else if v == 0x334 { TaosCode::MndNoEnoughDnodes } else if v == 0x335 { TaosCode::MndClusterCfgInconsistent } else if v == 0x336 { TaosCode::MndInvalidDnodeCfgOption } else if v == 0x337 { TaosCode::MndBalanceEnabled } else if v == 0x338 { TaosCode::MndVgroupNotInDnode } else if v == 0x339 { TaosCode::MndVgroupAlreadyInDnode } else if v == 0x33a { TaosCode::MndDnodeNotFree } else if v == 0x33b { TaosCode::MndInvalidClusterId } else if v == 0x33c { TaosCode::MndNotReady } else if v == 0x33d { TaosCode::MndDnodeIdNotConfigured } else { TaosCode::Unknown }
    }

    pub open spec fn spec_code_group_4(v: int) -> TaosCode {
        if v == 0x33e { TaosCode::MndDnodeEpNotConfigured } else if v == 0x340 { TaosCode::MndAcctAlreadyExist } else if v == 0x341 { TaosCode::MndInvalidAcct } else if v == 0x342 { TaosCode::MndInvalidAcctOption } else if v == 0x343 { TaosCode::MndAcctExpired } else if v == 0x350 { TaosCode::MndUserAlreadyExist } else if v == 0x351 { TaosCode::MndInvalidUser } else if v == 0x352 { TaosCode::MndInvalidUserFormat } else if v == 0x353 { TaosCode::MndInvalidPassFormat } else if v == 0x354 { TaosCode::MndNoUserFromConn } else if v == 0x355 { TaosCode::MndTooManyUsers } else if v == 0x360 { TaosCode::MndTableAlreadyExist } else if v == 0x361 { TaosCode::MndInvalidTableId } else if v == 0x362 { TaosCode::MndInvalidTableName } else if v == 0x363 { TaosCode::MndInvalidTableType } else if v == 0x364 { TaosCode::MndTooManyTags } else if v == 0x365 { TaosCode::MndTooManyColumns } else if v == 0x366 { TaosCode::MndTooManyTimeseries } else if v == 0x367 { TaosCode::MndNotSuperTable } else if v == 0x368 { TaosCode::MndColNameTooLong } else if v == 0x369 { TaosCode::MndTagAlreayExist } else if v == 0x36a { TaosCode::MndTagNotExist } else if v == 0x36b { TaosCode::MndFieldAlreayExist } else if v == 0x36c { TaosCode::MndFieldNotExist } else if v == 0x36d { TaosCode::MndInvalidStableName } else { TaosCode::Unknown }
    }

    pub open spec fn spec_code_group_5(v: int) -> TaosCode {
        if v == 0x36e { TaosCode::MndInvalidCreateTableMsg } else if v == 0x380 { TaosCode::MndDbNotSelected } else if v == 0x381 { TaosCode::MndDbAlreadyExist } else if v == 0x382 { TaosCode::MndInvalidDbOption } else if v == 0x383 { TaosCode::MndInvalidDb } else if v == 0x384 { TaosCode::MndMonitorDbForbidden } else if v == 0x385 { TaosCode::MndTooManyDatabases } else if v == 0x386 { TaosCode::MndDbInDropping } else if v == 0x387 { TaosCode::MndVgroupNotReady } else if v == 0x390 { TaosCode::MndInvalidDbOptionDays } else if v == 0x391 { TaosCode::MndInvalidDbOptionKeep } else if v == 0x392 { TaosCode::MndInvalidTopic } else if v == 0x393 { TaosCode::MndInvalidTopicOption } else if v == 0x394 { TaosCode::MndInvalidTopicPartitons } else if v == 0x395 { TaosCode::MndTopicAlreadyExist } else if v == 0x400 { TaosCode::DndMsgNotProcessed } else if v == 0x401 { TaosCode::DndOutOfMemory } else if v == 0x402 { TaosCode::DndNoWriteAccess } else if v == 0x403 { TaosCode::DndInvalidMsgLen } else if v == 0x404 { TaosCode::DndActionInProgress } else if v == 0x405 { TaosCode::DndTooManyVnodes } else if v == 0x500 { TaosCode::VndActionInProgress } else if v == 0x501 { TaosCode::VndMsgNotProcessed } else if v == 0x502 { TaosCode::VndActionNeedReprocessed } else if v == 0x503 { TaosCode::VndInvalidVgroupId } else { TaosCode::Unknown }
    }

    pub open spec fn spec_code_group_6(v: int) -> TaosCode {
        if v == 0x504 { TaosCode::VndInitFailed } else if v == 0x505 { TaosCode::VndNoDiskspace } else if v == 0x506 { TaosCode::VndNoDiskPermissions } else if v == 0x507 { TaosCode::VndNoSuchFileOrDir } else if v == 0x508 { TaosCode::VndOutOfMemory } else if v == 0x509 { TaosCode::VndAppError } else if v == 0x50a { TaosCode::VndInvalidVresionFile } else if v == 0x50b { TaosCode::VndIsFull } else if v == 0x50c { TaosCode::VndIsFlowctrl } else if v == 0x50d { TaosCode::VndIsDropping } else if v == 0x50e { TaosCode::VndIsBalancing } else if v == 0x511 { TaosCode::VndNotSynced } else if v == 0x512 { TaosCode::VndNoWriteAuth } else if v == 0x513 { TaosCode::VndIsSyncing } else if v == 0x600 { TaosCode::TdbInvalidTableId } else if v == 0x601 { TaosCode::TdbInvalidTableType } else if v == 0x602 { TaosCode::TdbIvdTbSchemaVersion } else if v == 0x603 { TaosCode::TdbTableAlreadyExist } else if v == 0x604 { TaosCode::TdbInvalidConfig } else if v == 0x605 { TaosCode::TdbInitFailed } else if v == 0x606 { TaosCode::TdbNoDiskspace } else if v == 0x607 { TaosCode::TdbNoDiskPermissions } else if v == 0x608 { TaosCode::TdbFileCorrupted } else if v == 0x609 { TaosCode::TdbOutOfMemory } else if v == 0x60a { TaosCode::TdbTagVerOutOfDate } else { TaosCode::Unknown }
    }

    pub open spec fn spec_code_group_7(v: int) -> TaosCode {
        if v == 0x60b { TaosCode::TdbTimestampOutOfRange } else if v == 0x60c { TaosCode::TdbSubmitMsgMssedUp } else if v == 0x60d { TaosCode::TdbInvalidAction } else if v == 0x60e { TaosCode::TdbInvalidCreateTbMsg } else if v == 0x60f { TaosCode::TdbNoTableDataInMem } else if v == 0x610 { TaosCode::TdbFileAlreadyExists } else if v == 0x611 { TaosCode::TdbTableReconfigure } else if v == 0x612 { TaosCode::TdbIvdCreateTableInfo } else if v == 0x613 { TaosCode::TdbNoAvailDisk } else if v == 0x614 { TaosCode::TdbMessedMsg } else if v == 0x615 { TaosCode::TdbIvldTagVal } else if v == 0x700 { TaosCode::QryInvalidQhandle } else if v == 0x701 { TaosCode::QryInvalidMsg } else if v == 0x702 { TaosCode::QryNoDiskspace } else if v == 0x703 { TaosCode::QryOutOfMemory } else if v == 0x704 { TaosCode::QryAppError } else if v == 0x705 { TaosCode::QryDupJoinKey } else if v == 0x706 { TaosCode::QryExceedTagsLimit } else if v == 0x707 { TaosCode::QryNotReady } else if v == 0x708 { TaosCode::QryHasRsp } else if v == 0x709 { TaosCode::QryInExec } else if v == 0x70a { TaosCode::QryTooManyTimewindow } else if v == 0x70b { TaosCode::QryNotEnoughBuffer } else if v == 0x70c { TaosCode::QryInconsistan } else if v == 0x800 { TaosCode::GrantExpired } else { TaosCode::Unknown }
    }

    pub open spec fn spec_code_group_8(v: int) -> TaosCode {
        if v == 0x801 { TaosCode::GrantDnodeLimited } else if v == 0x802 { TaosCode::GrantAcctLimited } else if v == 0x803 { TaosCode::GrantTimeseriesLimited } else if v == 0x804 { TaosCode::GrantDbLimited } else if v == 0x805 { TaosCode::GrantUserLimited } else if v == 0x806 { TaosCode::GrantConnLimited } else if v == 0x807 { TaosCode::GrantStreamLimited } else if v == 0x808 { TaosCode::GrantSpeedLimited } else if v == 0x809 { TaosCode::GrantStorageLimited } else if v == 0x80a { TaosCode::GrantQuerytimeLimited } else if v == 0x80b { TaosCode::GrantCpuLimited } else if v == 0x900 { TaosCode::SynInvalidConfig } else if v == 0x901 { TaosCode::SynNotEnabled } else if v == 0x902 { TaosCode::SynInvalidVersion } else if v == 0x903 { TaosCode::SynConfirmExpired } else if v == 0x904 { TaosCode::SynTooManyFwdinfo } else if v == 0x905 { TaosCode::SynMismatchedProtocol } else if v == 0x906 { TaosCode::SynMismatchedClusterid } else if v == 0x907 { TaosCode::SynMismatchedSignature } else if v == 0x908 { TaosCode::SynInvalidChecksum } else if v == 0x909 { TaosCode::SynInvalidMsglen } else if v == 0x90a { TaosCode::SynInvalidMsgtype } else if v == 0x1000 { TaosCode::WalAppError } else if v == 0x1001 { TaosCode::WalFileCorrupted } else if v == 0x1002 { TaosCode::WalSizeLimit } else { TaosCode::Unknown }
    }

    pub open spec fn spec_code_group_9(v: int) -> TaosCode {
        if v == 0x1100 { TaosCode::HttpServerOffline } else if v == 0x1101 { TaosCode::HttpUnsupportUrl } else if v == 0x1102 { TaosCode::HttpInvalidUrl } else if v == 0x1103 { TaosCode::HttpNoEnoughMemory } else if v == 0x1104 { TaosCode::HttpRequsetTooBig } else if v == 0x1105 { TaosCode::HttpNoAuthInfo } else if v == 0x1106 { TaosCode::HttpNoMsgInput } else if v == 0x1107 { TaosCode::HttpNoSqlInput } else if v == 0x1108 { TaosCode::HttpNoExecUsedb } else if v == 0x1109 { TaosCode::HttpSessionFull } else if v == 0x110a { TaosCode::HttpGenTaosdTokenErr } else if v == 0x110b { TaosCode::HttpInvalidMultiRequest } else if v == 0x110c { TaosCode::HttpCreateGzipFailed } else if v == 0x110d { TaosCode::HttpFinishGzipFailed } else if v == 0x110e { TaosCode::HttpLoginFailed } else if v == 0x1120 { TaosCode::HttpInvalidVersion } else if v == 0x1121 { TaosCode::HttpInvalidContentLength } else if v == 0x1122 { TaosCode::HttpInvalidAuthType } else if v == 0x1123 { TaosCode::HttpInvalidAuthFormat } else if v == 0x1124 { TaosCode::HttpInvalidBasicAuth } else if v == 0x1125 { TaosCode::HttpInvalidTaosdAuth } else if v == 0x1126 { TaosCode::HttpParseMethodFailed } else if v == 0x1127 { TaosCode::HttpParseTargetFailed } else if v == 0x1128 { TaosCode::HttpParseVersionFailed } else if v == 0x1129 { TaosCode::HttpParseSpFailed } else { TaosCode::Unknown }
    }

    pub open spec fn spec_code_group_10(v: int) -> TaosCode {
        if v == 0x112a { TaosCode::HttpParseStatusFailed } else if v == 0x112b { TaosCode::HttpParsePhraseFailed } else if v == 0x112c { TaosCode::HttpParseCrlfFailed } else if v == 0x112d { TaosCode::HttpParseHeaderFailed } else if v == 0x112e { TaosCode::HttpParseHeaderKeyFailed } else if v == 0x112f { TaosCode::HttpParseHeaderValFailed } else if v == 0x1130 { TaosCode::HttpParseChunkSizeFailed } else if v == 0x1131 { TaosCode::HttpParseChunkFailed } else if v == 0x1132 { TaosCode::HttpParseEndFailed } else if v == 0x1134 { TaosCode::HttpParseInvalidState } else if v == 0x1135 { TaosCode::HttpParseErrorState } else if v == 0x1150 { TaosCode::HttpGcQueryNull } else if v == 0x1151 { TaosCode::HttpGcQuerySize } else if v == 0x1152 { TaosCode::HttpGcReqParseError } else if v == 0x1160 { TaosCode::HttpTgDbNotInput } else if v == 0x1161 { TaosCode::HttpTgDbTooLong } else if v == 0x1162 { TaosCode::HttpTgInvalidJson } else if v == 0x1163 { TaosCode::HttpTgMetricsNull } else if v == 0x1164 { TaosCode::HttpTgMetricsSize } else if v == 0x1165 { TaosCode::HttpTgMetricNull } else if v == 0x1166 { TaosCode::HttpTgMetricType } else if v == 0x1167 { TaosCode::HttpTgMetricNameNull } else if v == 0x1168 { TaosCode::HttpTgMetricNameLong } else if v == 0x1169 { TaosCode::HttpTgTimestampNull } else if v == 0x116a { TaosCode::HttpTgTimestampType } else { TaosCode::Unknown }
    }

    pub open spec fn spec_code_group_11(v: int) -> TaosCode {
        if v == 0x116b { TaosCode::HttpTgTimestampValNull } else if v == 0x116c { TaosCode::HttpTgTagsNull } else if v == 0x116d { TaosCode::HttpTgTagsSize0 } else if v == 0x116e { TaosCode::HttpTgTagsSizeLong } else if v == 0x116f { TaosCode::HttpTgTagNull } else if v == 0x1170 { TaosCode::HttpTgTagNameNull } else if v == 0x1171 { TaosCode::HttpTgTagNameSize } else if v == 0x1172 { TaosCode::HttpTgTagValueType } else if v == 0x1173 { TaosCode::HttpTgTagValueNull } else if v == 0x1174 { TaosCode::HttpTgTableNull } else if v == 0x1175 { TaosCode::HttpTgTableSize } else if v == 0x1176 { TaosCode::HttpTgFieldsNull } else if v == 0x1177 { TaosCode::HttpTgFieldsSize0 } else if v == 0x1178 { TaosCode::HttpTgFieldsSizeLong } else if v == 0x1179 { TaosCode::HttpTgFieldNull } else if v == 0x117a { TaosCode::HttpTgFieldNameNull } else if v == 0x117b { TaosCode::HttpTgFieldNameSize } else if v == 0x117c { TaosCode::HttpTgFieldValueType } else if v == 0x117d { TaosCode::HttpTgFieldValueNull } else if v == 0x117e { TaosCode::HttpTgHostNotString } else if v == 0x117f { TaosCode::HttpTgStableNotExist } else if v == 0x1190 { TaosCode::HttpOpDbNotInput } else if v == 0x1191 { TaosCode::HttpOpDbTooLong } else if v == 0x1192 { TaosCode::HttpOpInvalidJson } else if v == 0x1193 { TaosCode::HttpOpMetricsNull } else { TaosCode::Unknown }
    }

    pub open spec fn spec_code_group_12(v: int) -> TaosCode {
        if v == 0x1194 { TaosCode::HttpOpMetricsSize } else if v == 0x1195 { TaosCode::HttpOpMetricNull } else if v == 0x1196 { TaosCode::HttpOpMetricType } else if v == 0x1197 { TaosCode::HttpOpMetricNameNull } else if v == 0x1198 { TaosCode::HttpOpMetricNameLong } else if v == 0x1199 { TaosCode::HttpOpTimestampNull } else if v == 0x119a { TaosCode::HttpOpTimestampType } else if v == 0x119b { TaosCode::HttpOpTimestampValNull } else if v == 0x119c { TaosCode::HttpOpTagsNull } else if v == 0x119d { TaosCode::HttpOpTagsSize0 } else if v == 0x119e { TaosCode::HttpOpTagsSizeLong } else if v == 0x119f { TaosCode::HttpOpTagNull } else if v == 0x11a0 { TaosCode::HttpOpTagNameNull } else if v == 0x11a1 { TaosCode::HttpOpTagNameSize } else if v == 0x11a2 { TaosCode::HttpOpTagValueType } else if v == 0x11a3 { TaosCode::HttpOpTagValueNull } else if v == 0x11a4 { TaosCode::HttpOpTagValueTooLong } else if v == 0x11a5 { TaosCode::HttpOpValueNull } else if v == 0x11a6 { TaosCode::HttpOpValueType } else if v == 0x2100 { TaosCode::OdbcOom } else if v == 0x2101 { TaosCode::OdbcConvCharNotNum } else if v == 0x2102 { TaosCode::OdbcConvUndef } else if v == 0x2103 { TaosCode::OdbcConvTruncFrac } else if v == 0x2104 { TaosCode::OdbcConvTrunc } else if v == 0x2105 { TaosCode::OdbcConvNotSupport } else { TaosCode::Unknown }
    }

    pub open spec fn spec_code_group_13(v: int) -> TaosCode {
        if v == 0x2106 { TaosCode::OdbcConvOor } else if v == 0x2107 { TaosCode::OdbcOutOfRange } else if v == 0x2108 { TaosCode::OdbcNotSupport } else if v == 0x2109 { TaosCode::OdbcInvalidHandle } else if v == 0x210a { TaosCode::OdbcNoResult } else if v == 0x210b { TaosCode::OdbcNoFields } else if v == 0x210c { TaosCode::OdbcInvalidCursor } else if v == 0x210d { TaosCode::OdbcStatementNotReady } else if v == 0x210e { TaosCode::OdbcConnectionBusy } else if v == 0x210f { TaosCode::OdbcBadConnstr } else if v == 0x2110 { TaosCode::OdbcBadArg } else if v == 0x2111 { TaosCode::OdbcConvNotValidTs } else if v == 0x2112 { TaosCode::OdbcConvSrcTooLarge } else if v == 0x2113 { TaosCode::OdbcConvSrcBadSeq } else if v == 0x2114 { TaosCode::OdbcConvSrcIncomplete } else if v == 0x2115 { TaosCode::OdbcConvSrcGeneral } else if v == 0x2200 { TaosCode::FsOutOfMemory } else if v == 0x2201 { TaosCode::FsInvldCfg } else if v == 0x2202 { TaosCode::FsTooManyMount } else if v == 0x2203 { TaosCode::FsDupPrimary } else if v == 0x2204 { TaosCode::FsNoPrimaryDisk } else if v == 0x2205 { TaosCode::FsNoMountAtTier } else if v == 0x2206 { TaosCode::FsFileAlreadyExists } else if v == 0x2207 { TaosCode::FsInvldLevel } else if v == 0x2208 { TaosCode::FsNoValidDisk } else { TaosCode::Unknown }
    }

    /// The named code for a numeric value: each known value maps to its
    /// code, every other value to `Unknown`.
    pub open spec fn spec_from_value(v: int) -> TaosCode {
        if v <= 0x101 { TaosCode::spec_code_group_0(v) } else if v <= 0x20f { TaosCode::spec_code_group_1(v) } else if v <= 0x30e { TaosCode::spec_code_group_2(v) } else if v <= 0x33d { TaosCode::spec_code_group_3(v) } else if v <= 0x36d { TaosCode::spec_code_group_4(v) } else if v <= 0x503 { TaosCode::spec_code_group_5(v) } else if v <= 0x60a { TaosCode::spec_code_group_6(v) } else if v <= 0x800 { TaosCode::spec_code_group_7(v) } else if v <= 0x1002 { TaosCode::spec_code_group_8(v) } else if v <= 0x1129 { TaosCode::spec_code_group_9(v) } else if v <= 0x116a { TaosCode::spec_code_group_10(v) } else if v <= 0x1193 { TaosCode::spec_code_group_11(v) } else if v <= 0x2105 { TaosCode::spec_code_group_12(v) } else if v <= 0x2208 { TaosCode::spec_code_group_13(v) } else { TaosCode::Unknown }
    }

    fn code_group_0(v: i32) -> (r: TaosCode)
        ensures
            r == TaosCode::spec_code_group_0(v as int),
    {
        match v {
            0x0 => TaosCode::Success,
            0x1 => TaosCode::RpcActionInProgress,
            0x2 => TaosCode::RpcAuthRequired,
            0x3 => TaosCode::RpcAuthFailure,
            0x4 => TaosCode::RpcRedirect,
            0x5 => TaosCode::RpcNotReady,
            0x6 => TaosCode::RpcAlreadyProcessed,
            0x7 => TaosCode::RpcLastSessionNotFinished,
            0x8 => TaosCode::RpcMismatchedLinkId,
            0x9 => TaosCode::RpcTooSlow,
            0xa => TaosCode::RpcMaxSessions,
            0xb => TaosCode::RpcNetworkUnavail,
            0xc => TaosCode::RpcAppError,
            0xd => TaosCode::RpcUnexpectedResponse,
            0xe => TaosCode::RpcInvalidValue,
            0xf => TaosCode::RpcInvalidTranId,
            0x10 => TaosCode::RpcInvalidSessionId,
            0x11 => TaosCode::RpcInvalidMsgType,
            0x12 => TaosCode::RpcInvalidResponseType,
            0x13 => TaosCode::RpcInvalidTimeStamp,
            0x14 => TaosCode::AppNotReady,
            0x15 => TaosCode::RpcFqdnError,
            0x16 => TaosCode::RpcInvalidVersion,
            0x100 => TaosCode::ComOpsNotSupport,
            0x101 => TaosCode::ComMemoryCorrupted,
            _ => TaosCode::Unknown,
        }
    }

    fn code_group_1(v: i32) -> (r: TaosCode)
        ensures
            r == TaosCode::spec_code_group_1(v as int),
    {
        match v {
            0x102 => TaosCode::ComOutOfMemory,
            0x103 => TaosCode::ComInvalidCfgMsg,
            0x104 => TaosCode::ComFileCorrupted,
            0x105 => TaosCode::RefNoMemory,
            0x106 => TaosCode::RefFull,
            0x107 => TaosCode::RefIdRemoved,
            0x108 => TaosCode::RefInvalidId,
            0x109 => TaosCode::RefAlreadyExist,
            0x10a => TaosCode::RefNotExist,
            0x200 => TaosCode::TscInvalidSql,
            0x201 => TaosCode::TscInvalidQhandle,
            0x202 => TaosCode::TscInvalidTimeStamp,
            0x203 => TaosCode::TscInvalidValue,
            0x204 => TaosCode::TscInvalidVersion,
            0x205 => TaosCode::TscInvalidIe,
            0x206 => TaosCode::TscInvalidFqdn,
            0x207 => TaosCode::TscInvalidUserLength,
            0x208 => TaosCode::TscInvalidPassLength,
            0x209 => TaosCode::TscInvalidDbLength,
            0x20a => TaosCode::TscInvalidTableIdLength,
            0x20b => TaosCode::TscInvalidConnection,
            0x20c => TaosCode::TscOutOfMemory,
            0x20d => TaosCode::TscNoDiskspace,
            0x20e => TaosCode::TscQueryCacheErased,
            0x20f => TaosCode::TscQueryCancelled,
            _ => TaosCode::Unknown,
        }
    }

    fn code_group_2(v: i32) -> (r: TaosCode)
        ensures
            r == TaosCode::spec_code_group_2(v as int),
    {
        match v {
            0x210 => TaosCode::TscSortedResTooMany,
            0x211 => TaosCode::TscAppError,
            0x212 => TaosCode::TscActionInProgress,
            0x213 => TaosCode::TscDisconnected,
            0x214 => TaosCode::TscNoWriteAuth,
            0x215 => TaosCode::TscConnKilled,
            0x216 => TaosCode::TscSqlSyntaxError,
            0x217 => TaosCode::TscDbNotSelected,
            0x218 => TaosCode::TscInvalidTableName,
            0x219 => TaosCode::TscExceedSqlLimit,
            0x300 => TaosCode::MndMsgNotProcessed,
            0x301 => TaosCode::MndActionInProgress,
            0x302 => TaosCode::MndActionNeedReprocessed,
            0x303 => TaosCode::MndNoRights,
            0x304 => TaosCode::MndAppError,
            0x305 => TaosCode::MndInvalidConnection,
            0x306 => TaosCode::MndInvalidMsgVersion,
            0x307 => TaosCode::MndInvalidMsgLen,
            0x308 => TaosCode::MndInvalidMsgType,
            0x309 => TaosCode::MndTooManyShellConns,
            0x30a => TaosCode::MndOutOfMemory,
            0x30b => TaosCode::MndInvalidShowobj,
            0x30c => TaosCode::MndInvalidQueryId,
            0x30d => TaosCode::MndInvalidStreamId,
            0x30e => TaosCode::MndInvalidConnId,
            _ => TaosCode::Unknown,
        }
    }

    fn code_group_3(v: i32) -> (r: TaosCode)
        ensures
            r == TaosCode::spec_code_group_3(v as int),
    {
        match v {
            0x310 => TaosCode::MndMnodeIsRunning,
            0x311 => TaosCode::MndFailedToConfigSync,
            0x312 => TaosCode::MndFailedToStartSync,
            0x313 => TaosCode::MndFailedToCreateDir,
            0x314 => TaosCode::MndFailedToInitStep,
            0x320 => TaosCode::MndSdbObjAlreadyThere,
            0x321 => TaosCode::MndSdbError,
            0x322 => TaosCode::MndSdbInvalidTableType,
            0x323 => TaosCode::MndSdbObjNotThere,
            0x324 => TaosCode::MndSdbInvaidMetaRow,
            0x325 => TaosCode::MndSdbInvaidKeyType,
            0x330 => TaosCode::MndDnodeAlreadyExist,
            0x331 => TaosCode::MndDnodeNotExist,
            0x332 => TaosCode::MndVgroupNotExist,
            0x333 => TaosCode::MndNoRemoveMaster,
            0x334 => TaosCode::MndNoEnoughDnodes,
            0x335 => TaosCode::MndClusterCfgInconsistent,
            0x336 => TaosCode::MndInvalidDnodeCfgOption,
            0x337 => TaosCode::MndBalanceEnabled,
            0x338 => TaosCode::MndVgroupNotInDnode,
            0x339 => TaosCode::MndVgroupAlreadyInDnode,
            0x33a => TaosCode::MndDnodeNotFree,
            0x33b => TaosCode::MndInvalidClusterId,
            0x33c => TaosCode::MndNotReady,
            0x33d => TaosCode::MndDnodeIdNotConfigured,
            _ => TaosCode::Unknown,
        }
    }

    fn code_group_4(v: i32) -> (r: TaosCode)
        ensures
            r == TaosCode::spec_code_group_4(v as int),
    {
        match v {
            0x33e => TaosCode::MndDnodeEpNotConfigured,
            0x340 => TaosCode::MndAcctAlreadyExist,
            0x341 => TaosCode::MndInvalidAcct,
            0x342 => TaosCode::MndInvalidAcctOption,
            0x343 => TaosCode::MndAcctExpired,
            0x350 => TaosCode::MndUserAlreadyExist,
            0x351 => TaosCode::MndInvalidUser,
            0x352 => TaosCode::MndInvalidUserFormat,
            0x353 => TaosCode::MndInvalidPassFormat,
            0x354 => TaosCode::MndNoUserFromConn,
            0x355 => TaosCode::MndTooManyUsers,
            0x360 => TaosCode::MndTableAlreadyExist,
            0x361 => TaosCode::MndInvalidTableId,
            0x362 => TaosCode::MndInvalidTableName,
            0x363 => TaosCode::MndInvalidTableType,
            0x364 => TaosCode::MndTooManyTags,
            0x365 => TaosCode::MndTooManyColumns,
            0x366 => TaosCode::MndTooManyTimeseries,
            0x367 => TaosCode::MndNotSuperTable,
            0x368 => TaosCode::MndColNameTooLong,
            0x369 => TaosCode::MndTagAlreayExist,
            0x36a => TaosCode::MndTagNotExist,
            0x36b => TaosCode::MndFieldAlreayExist,
            0x36c => TaosCode::MndFieldNotExist,
            0x36d => TaosCode::MndInvalidStableName,
            _ => TaosCode::Unknown,
        }
    }

    fn code_group_5(v: i32) -> (r: TaosCode)
        ensures
            r == TaosCode::spec_code_group_5(v as int),
    {
        match v {
            0x36e => TaosCode::MndInvalidCreateTableMsg,
            0x380 => TaosCode::MndDbNotSelected,
            0x381 => TaosCode::MndDbAlreadyExist,
            0x382 => TaosCode::MndInvalidDbOption,
            0x383 => TaosCode::MndInvalidDb,
            0x384 => TaosCode::MndMonitorDbForbidden,
            0x385 => TaosCode::MndTooManyDatabases,
            0x386 => TaosCode::MndDbInDropping,
            0x387 => TaosCode::MndVgroupNotReady,
            0x390 => TaosCode::MndInvalidDbOptionDays,
            0x391 => TaosCode::MndInvalidDbOptionKeep,
            0x392 => TaosCode::MndInvalidTopic,
            0x393 => TaosCode::MndInvalidTopicOption,
            0x394 => TaosCode::MndInvalidTopicPartitons,
            0x395 => TaosCode::MndTopicAlreadyExist,
            0x400 => TaosCode::DndMsgNotProcessed,
            0x401 => TaosCode::DndOutOfMemory,
            0x402 => TaosCode::DndNoWriteAccess,
            0x403 => TaosCode::DndInvalidMsgLen,
            0x404 => TaosCode::DndActionInProgress,
            0x405 => TaosCode::DndTooManyVnodes,
            0x500 => TaosCode::VndActionInProgress,
            0x501 => TaosCode::VndMsgNotProcessed,
            0x502 => TaosCode::VndActionNeedReprocessed,
            0x503 => TaosCode::VndInvalidVgroupId,
            _ => TaosCode::Unknown,
        }
    }

    fn code_group_6(v: i32) -> (r: TaosCode)
        ensures
            r == TaosCode::spec_code_group_6(v as int),
    {
        match v {
            0x504 => TaosCode::VndInitFailed,
            0x505 => TaosCode::VndNoDiskspace,
            0x506 => TaosCode::VndNoDiskPermissions,
            0x507 => TaosCode::VndNoSuchFileOrDir,
            0x508 => TaosCode::VndOutOfMemory,
            0x509 => TaosCode::VndAppError,
            0x50a => TaosCode::VndInvalidVresionFile,
            0x50b => TaosCode::VndIsFull,
            0x50c => TaosCode::VndIsFlowctrl,
            0x50d => TaosCode::VndIsDropping,
            0x50e => TaosCode::VndIsBalancing,
            0x511 => TaosCode::VndNotSynced,
            0x512 => TaosCode::VndNoWriteAuth,
            0x513 => TaosCode::VndIsSyncing,
            0x600 => TaosCode::TdbInvalidTableId,
            0x601 => TaosCode::TdbInvalidTableType,
            0x602 => TaosCode::TdbIvdTbSchemaVersion,
            0x603 => TaosCode::TdbTableAlreadyExist,
            0x604 => TaosCode::TdbInvalidConfig,
            0x605 => TaosCode::TdbInitFailed,
            0x606 => TaosCode::TdbNoDiskspace,
            0x607 => TaosCode::TdbNoDiskPermissions,
            0x608 => TaosCode::TdbFileCorrupted,
            0x609 => TaosCode::TdbOutOfMemory,
            0x60a => TaosCode::TdbTagVerOutOfDate,
            _ => TaosCode::Unknown,
        }
    }

    fn code_group_7(v: i32) -> (r: TaosCode)
        ensures
            r == TaosCode::spec_code_group_7(v as int),
    {
        match v {
            0x60b => TaosCode::TdbTimestampOutOfRange,
            0x60c => TaosCode::TdbSubmitMsgMssedUp,
            0x60d => TaosCode::TdbInvalidAction,
            0x60e => TaosCode::TdbInvalidCreateTbMsg,
            0x60f => TaosCode::TdbNoTableDataInMem,
            0x610 => TaosCode::TdbFileAlreadyExists,
            0x611 => TaosCode::TdbTableReconfigure,
            0x612 => TaosCode::TdbIvdCreateTableInfo,
            0x613 => TaosCode::TdbNoAvailDisk,
            0x614 => TaosCode::TdbMessedMsg,
            0x615 => TaosCode::TdbIvldTagVal,
            0x700 => TaosCode::QryInvalidQhandle,
            0x701 => TaosCode::QryInvalidMsg,
            0x702 => TaosCode::QryNoDiskspace,
            0x703 => TaosCode::QryOutOfMemory,
            0x704 => TaosCode::QryAppError,
            0x705 => TaosCode::QryDupJoinKey,
            0x706 => TaosCode::QryExceedTagsLimit,
            0x707 => TaosCode::QryNotReady,
            0x708 => TaosCode::QryHasRsp,
            0x709 => TaosCode::QryInExec,
            0x70a => TaosCode::QryTooManyTimewindow,
            0x70b => TaosCode::QryNotEnoughBuffer,
            0x70c => TaosCode::QryInconsistan,
            0x800 => TaosCode::GrantExpired,
            _ => TaosCode::Unknown,
        }
    }

    fn code_group_8(v: i32) -> (r: TaosCode)
        ensures
            r == TaosCode::spec_code_group_8(v as int),
    {
        match v {
            0x801 => TaosCode::GrantDnodeLimited,
            0x802 => TaosCode::GrantAcctLimited,
            0x803 => TaosCode::GrantTimeseriesLimited,
            0x804 => TaosCode::GrantDbLimited,
            0x805 => TaosCode::GrantUserLimited,
            0x806 => TaosCode::GrantConnLimited,
            0x807 => TaosCode::GrantStreamLimited,
            0x808 => TaosCode::GrantSpeedLimited,
            0x809 => TaosCode::GrantStorageLimited,
            0x80a => TaosCode::GrantQuerytimeLimited,
            0x80b => TaosCode::GrantCpuLimited,
            0x900 => TaosCode::SynInvalidConfig,
            0x901 => TaosCode::SynNotEnabled,
            0x902 => TaosCode::SynInvalidVersion,
            0x903 => TaosCode::SynConfirmExpired,
            0x904 => TaosCode::SynTooManyFwdinfo,
            0x905 => TaosCode::SynMismatchedProtocol,
            0x906 => TaosCode::SynMismatchedClusterid,
            0x907 => TaosCode::SynMismatchedSignature,
            0x908 => TaosCode::SynInvalidChecksum,
            0x909 => TaosCode::SynInvalidMsglen,
            0x90a => TaosCode::SynInvalidMsgtype,
            0x1000 => TaosCode::WalAppError,
            0x1001 => TaosCode::WalFileCorrupted,
            0x1002 => TaosCode::WalSizeLimit,
            _ => TaosCode::Unknown,
        }
    }

    fn code_group_9(v: i32) -> (r: TaosCode)
        ensures
            r == TaosCode::spec_code_group_9(v as int),
    {
        match v {
            0x1100 => TaosCode::HttpServerOffline,
            0x1101 => TaosCode::HttpUnsupportUrl,
            0x1102 => TaosCode::HttpInvalidUrl,
            0x1103 => TaosCode::HttpNoEnoughMemory,
            0x1104 => TaosCode::HttpRequsetTooBig,
            0x1105 => TaosCode::HttpNoAuthInfo,
            0x1106 => TaosCode::HttpNoMsgInput,
            0x1107 => TaosCode::HttpNoSqlInput,
            0x1108 => TaosCode::HttpNoExecUsedb,
            0x1109 => TaosCode::HttpSessionFull,
            0x110a => TaosCode::HttpGenTaosdTokenErr,
            0x110b => TaosCode::HttpInvalidMultiRequest,
            0x110c => TaosCode::HttpCreateGzipFailed,
            0x110d => TaosCode::HttpFinishGzipFailed,
            0x110e => TaosCode::HttpLoginFailed,
            0x1120 => TaosCode::HttpInvalidVersion,
            0x1121 => TaosCode::HttpInvalidContentLength,
            0x1122 => TaosCode::HttpInvalidAuthType,
            0x1123 => TaosCode::HttpInvalidAuthFormat,
            0x1124 => TaosCode::HttpInvalidBasicAuth,
            0x1125 => TaosCode::HttpInvalidTaosdAuth,
            0x1126 => TaosCode::HttpParseMethodFailed,
            0x1127 => TaosCode::HttpParseTargetFailed,
            0x1128 => TaosCode::HttpParseVersionFailed,
            0x1129 => TaosCode::HttpParseSpFailed,
            _ => TaosCode::Unknown,
        }
    }

    fn code_group_10(v: i32) -> (r: TaosCode)
        ensures
            r == TaosCode::spec_code_group_10(v as int),
    {
        match v {
            0x112a => TaosCode::HttpParseStatusFailed,
            0x112b => TaosCode::HttpParsePhraseFailed,
            0x112c => TaosCode::HttpParseCrlfFailed,
            0x112d => TaosCode::HttpParseHeaderFailed,
            0x112e => TaosCode::HttpParseHeaderKeyFailed,
            0x112f => TaosCode::HttpParseHeaderValFailed,
            0x1130 => TaosCode::HttpParseChunkSizeFailed,
            0x1131 => TaosCode::HttpParseChunkFailed,
            0x1132 => TaosCode::HttpParseEndFailed,
            0x1134 => TaosCode::HttpParseInvalidState,
            0x1135 => TaosCode::HttpParseErrorState,
            0x1150 => TaosCode::HttpGcQueryNull,
            0x1151 => TaosCode::HttpGcQuerySize,
            0x1152 => TaosCode::HttpGcReqParseError,
            0x1160 => TaosCode::HttpTgDbNotInput,
            0x1161 => TaosCode::HttpTgDbTooLong,
            0x1162 => TaosCode::HttpTgInvalidJson,
            0x1163 => TaosCode::HttpTgMetricsNull,
            0x1164 => TaosCode::HttpTgMetricsSize,
            0x1165 => TaosCode::HttpTgMetricNull,
            0x1166 => TaosCode::HttpTgMetricType,
            0x1167 => TaosCode::HttpTgMetricNameNull,
            0x1168 => TaosCode::HttpTgMetricNameLong,
            0x1169 => TaosCode::HttpTgTimestampNull,
            0x116a => TaosCode::HttpTgTimestampType,
            _ => TaosCode::Unknown,
        }
    }

    fn code_group_11(v: i32) -> (r: TaosCode)
        ensures
            r == TaosCode::spec_code_group_11(v as int),
    {
        match v {
            0x116b => TaosCode::HttpTgTimestampValNull,
            0x116c => TaosCode::HttpTgTagsNull,
            0x116d => TaosCode::HttpTgTagsSize0,
            0x116e => TaosCode::HttpTgTagsSizeLong,
            0x116f => TaosCode::HttpTgTagNull,
            0x1170 => TaosCode::HttpTgTagNameNull,
            0x1171 => TaosCode::HttpTgTagNameSize,
            0x1172 => TaosCode::HttpTgTagValueType,
            0x1173 => TaosCode::HttpTgTagValueNull,
            0x1174 => TaosCode::HttpTgTableNull,
            0x1175 => TaosCode::HttpTgTableSize,
            0x1176 => TaosCode::HttpTgFieldsNull,
            0x1177 => TaosCode::HttpTgFieldsSize0,
            0x1178 => TaosCode::HttpTgFieldsSizeLong,
            0x1179 => TaosCode::HttpTgFieldNull,
            0x117a => TaosCode::HttpTgFieldNameNull,
            0x117b => TaosCode::HttpTgFieldNameSize,
            0x117c => TaosCode::HttpTgFieldValueType,
            0x117d => TaosCode::HttpTgFieldValueNull,
            0x117e => TaosCode::HttpTgHostNotString,
            0x117f => TaosCode::HttpTgStableNotExist,
            0x1190 => TaosCode::HttpOpDbNotInput,
            0x1191 => TaosCode::HttpOpDbTooLong,
            0x1192 => TaosCode::HttpOpInvalidJson,
            0x1193 => TaosCode::HttpOpMetricsNull,
            _ => TaosCode::Unknown,
        }
    }

    fn code_group_12(v: i32) -> (r: TaosCode)
        ensures
            r == TaosCode::spec_code_group_12(v as int),
    {
        match v {
            0x1194 => TaosCode::HttpOpMetricsSize,
            0x1195 => TaosCode::HttpOpMetricNull,
            0x1196 => TaosCode::HttpOpMetricType,
            0x1197 => TaosCode::HttpOpMetricNameNull,
            0x1198 => TaosCode::HttpOpMetricNameLong,
            0x1199 => TaosCode::HttpOpTimestampNull,
            0x119a => TaosCode::HttpOpTimestampType,
            0x119b => TaosCode::HttpOpTimestampValNull,
            0x119c => TaosCode::HttpOpTagsNull,
            0x119d => TaosCode::HttpOpTagsSize0,
            0x119e => TaosCode::HttpOpTagsSizeLong,
            0x119f => TaosCode::HttpOpTagNull,
            0x11a0 => TaosCode::HttpOpTagNameNull,
            0x11a1 => TaosCode::HttpOpTagNameSize,
            0x11a2 => TaosCode::HttpOpTagValueType,
            0x11a3 => TaosCode::HttpOpTagValueNull,
            0x11a4 => TaosCode::HttpOpTagValueTooLong,
            0x11a5 => TaosCode::HttpOpValueNull,
            0x11a6 => TaosCode::HttpOpValueType,
            0x2100 => TaosCode::OdbcOom,
            0x2101 => TaosCode::OdbcConvCharNotNum,
            0x2102 => TaosCode::OdbcConvUndef,
            0x2103 => TaosCode::OdbcConvTruncFrac,
            0x2104 => TaosCode::OdbcConvTrunc,
            0x2105 => TaosCode::OdbcConvNotSupport,
            _ => TaosCode::Unknown,
        }
    }

    fn code_group_13(v: i32) -> (r: TaosCode)
        ensures
            r == TaosCode::spec_code_group_13(v as int),
    {
        match v {
            0x2106 => TaosCode::OdbcConvOor,
            0x2107 => TaosCode::OdbcOutOfRange,
            0x2108 => TaosCode::OdbcNotSupport,
            0x2109 => TaosCode::OdbcInvalidHandle,
            0x210a => TaosCode::OdbcNoResult,
            0x210b => TaosCode::OdbcNoFields,
            0x210c => TaosCode::OdbcInvalidCursor,
            0x210d => TaosCode::OdbcStatementNotReady,
            0x210e => TaosCode::OdbcConnectionBusy,
            0x210f => TaosCode::OdbcBadConnstr,
            0x2110 => TaosCode::OdbcBadArg,
            0x2111 => TaosCode::OdbcConvNotValidTs,
            0x2112 => TaosCode::OdbcConvSrcTooLarge,
            0x2113 => TaosCode::OdbcConvSrcBadSeq,
            0x2114 => TaosCode::OdbcConvSrcIncomplete,
            0x2115 => TaosCode::OdbcConvSrcGeneral,
            0x2200 => TaosCode::FsOutOfMemory,
            0x2201 => TaosCode::FsInvldCfg,
            0x2202 => TaosCode::FsTooManyMount,
            0x2203 => TaosCode::FsDupPrimary,
            0x2204 => TaosCode::FsNoPrimaryDisk,
            0x2205 => TaosCode::FsNoMountAtTier,
            0x2206 => TaosCode::FsFileAlreadyExists,
            0x2207 => TaosCode::FsInvldLevel,
            0x2208 => TaosCode::FsNoValidDisk,
            _ => TaosCode::Unknown,
        }
    }

    /// Classify a numeric status value as a named code; values that match
    /// no named code become `Unknown`.
    pub fn from_value(v: i32) -> (r: TaosCode)
        ensures
            r == TaosCode::spec_from_value(v as int),
    {
        if v <= 0x101 { TaosCode::code_group_0(v) } else if v <= 0x20f { TaosCode::code_group_1(v) } else if v <= 0x30e { TaosCode::code_group_2(v) } else if v <= 0x33d { TaosCode::code_group_3(v) } else if v <= 0x36d { TaosCode::code_group_4(v) } else if v <= 0x503 { TaosCode::code_group_5(v) } else if v <= 0x60a { TaosCode::code_group_6(v) } else if v <= 0x800 { TaosCode::code_group_7(v) } else if v <= 0x1002 { TaosCode::code_group_8(v) } else if v <= 0x1129 { TaosCode::code_group_9(v) } else if v <= 0x116a { TaosCode::code_group_10(v) } else if v <= 0x1193 { TaosCode::code_group_11(v) } else if v <= 0x2105 { TaosCode::code_group_12(v) } else if v <= 0x2208 { TaosCode::code_group_13(v) } else { TaosCode::Unknown }
    }

    pub fn success(&self) -> (r: bool)
        ensures
            r == (*self is Success),
    {
        matches!(*self, TaosCode::Success)
    }

    /// RPC_ACTION_IN_PROGRESS: Action in progress
    pub fn rpc_action_in_progress(&self) -> (r: bool)
        ensures
            r == (*self is RpcActionInProgress),
    {
        matches!(*self, TaosCode::RpcActionInProgress)
    }

    /// RPC_AUTH_REQUIRED: Authentication required
    pub fn rpc_auth_required(&self) -> (r: bool)
        ensures
            r == (*self is RpcAuthRequired),
    {
        matches!(*self, TaosCode::RpcAuthRequired)
    }

    /// RPC_AUTH_FAILURE: Authentication failure
    pub fn rpc_auth_failure(&self) -> (r: bool)
        ensures
            r == (*self is RpcAuthFailure),
    {
        matches!(*self, TaosCode::RpcAuthFailure)
    }

    /// RPC_REDIRECT: Redirect
    pub fn rpc_redirect(&self) -> (r: bool)
        ensures
            r == (*self is RpcRedirect),
    {
        matches!(*self, TaosCode::RpcRedirect)
    }

    /// RPC_NOT_READY: System not ready
    pub fn rpc_not_ready(&self) -> (r: bool)
        ensures
            r == (*self is RpcNotReady),
    {
        matches!(*self, TaosCode::RpcNotReady)
    }

    /// RPC_ALREADY_PROCESSED: Message already processed
    pub fn rpc_already_processed(&self) -> (r: bool)
        ensures
            r == (*self is RpcAlreadyProcessed),
    {
        matches!(*self, TaosCode::RpcAlreadyProcessed)
    }

    /// RPC_LAST_SESSION_NOT_FINISHED: Last session not finished
    pub fn rpc_last_session_not_finished(&self) -> (r: bool)
        ensures
            r == (*self is RpcLastSessionNotFinished),
    {
        matches!(*self, TaosCode::RpcLastSessionNotFinished)
    }

    /// RPC_MISMATCHED_LINK_ID: Mismatched meter id
    pub fn rpc_mismatched_link_id(&self) -> (r: bool)
        ensures
            r == (*self is RpcMismatchedLinkId),
    {
        matches!(*self, TaosCode::RpcMismatchedLinkId)
    }

    /// RPC_TOO_SLOW: Processing of request timed out
    pub fn rpc_too_slow(&self) -> (r: bool)
        ensures
            r == (*self is RpcTooSlow),
    {
        matches!(*self, TaosCode::RpcTooSlow)
    }

    /// RPC_MAX_SESSIONS: Number of sessions reached limit
    pub fn rpc_max_sessions(&self) -> (r: bool)
        ensures
            r == (*self is RpcMaxSessions),
    {
        matches!(*self, TaosCode::RpcMaxSessions)
    }

    /// RPC_NETWORK_UNAVAIL: Unable to establish connection
    pub fn rpc_network_unavail(&self) -> (r: bool)
        ensures
            r == (*self is RpcNetworkUnavail),
    {
        matches!(*self, TaosCode::RpcNetworkUnavail)
    }

    /// RPC_APP_ERROR: Unexpected generic error in RPC
    pub fn rpc_app_error(&self) -> (r: bool)
        ensures
            r == (*self is RpcAppError),
    {
        matches!(*self, TaosCode::RpcAppError)
    }

    /// RPC_UNEXPECTED_RESPONSE: Unexpected response
    pub fn rpc_unexpected_response(&self) -> (r: bool)
        ensures
            r == (*self is RpcUnexpectedResponse),
    {
        matches!(*self, TaosCode::RpcUnexpectedResponse)
    }

    /// RPC_INVALID_VALUE: Invalid value
    pub fn rpc_invalid_value(&self) -> (r: bool)
        ensures
            r == (*self is RpcInvalidValue),
    {
        matches!(*self, TaosCode::RpcInvalidValue)
    }

    /// RPC_INVALID_TRAN_ID: Invalid transaction id
    pub fn rpc_invalid_tran_id(&self) -> (r: bool)
        ensures
            r == (*self is RpcInvalidTranId),
    {
        matches!(*self, TaosCode::RpcInvalidTranId)
    }

    /// RPC_INVALID_SESSION_ID: Invalid session id
    pub fn rpc_invalid_session_id(&self) -> (r: bool)
        ensures
            r == (*self is RpcInvalidSessionId),
    {
        matches!(*self, TaosCode::RpcInvalidSessionId)
    }

    /// RPC_INVALID_MSG_TYPE: Invalid message type
    pub fn rpc_invalid_msg_type(&self) -> (r: bool)
        ensures
            r == (*self is RpcInvalidMsgType),
    {
        matches!(*self, TaosCode::RpcInvalidMsgType)
    }

    /// RPC_INVALID_RESPONSE_TYPE: Invalid response type
    pub fn rpc_invalid_response_type(&self) -> (r: bool)
        ensures
            r == (*self is RpcInvalidResponseType),
    {
        matches!(*self, TaosCode::RpcInvalidResponseType)
    }

    /// RPC_INVALID_TIME_STAMP: Client and server's time is not synchronized
    pub fn rpc_invalid_time_stamp(&self) -> (r: bool)
        ensures
            r == (*self is RpcInvalidTimeStamp),
    {
        matches!(*self, TaosCode::RpcInvalidTimeStamp)
    }

    /// APP_NOT_READY: Database not ready
    pub fn app_not_ready(&self) -> (r: bool)
        ensures
            r == (*self is AppNotReady),
    {
        matches!(*self, TaosCode::AppNotReady)
    }

    /// RPC_FQDN_ERROR: Unable to resolve FQDN
    pub fn rpc_fqdn_error(&self) -> (r: bool)
        ensures
            r == (*self is RpcFqdnError),
    {
        matches!(*self, TaosCode::RpcFqdnError)
    }

    /// RPC_INVALID_VERSION: Invalid app version
    pub fn rpc_invalid_version(&self) -> (r: bool)
        ensures
            r == (*self is RpcInvalidVersion),
    {
        matches!(*self, TaosCode::RpcInvalidVersion)
    }

    /// COM_OPS_NOT_SUPPORT: Operation not supported
    pub fn com_ops_not_support(&self) -> (r: bool)
        ensures
            r == (*self is ComOpsNotSupport),
    {
        matches!(*self, TaosCode::ComOpsNotSupport)
    }

    /// COM_MEMORY_CORRUPTED: Memory corrupted
    pub fn com_memory_corrupted(&self) -> (r: bool)
        ensures
            r == (*self is ComMemoryCorrupted),
    {
        matches!(*self, TaosCode::ComMemoryCorrupted)
    }

    /// COM_OUT_OF_MEMORY: Out of memory
    pub fn com_out_of_memory(&self) -> (r: bool)
        ensures
            r == (*self is ComOutOfMemory),
    {
        matches!(*self, TaosCode::ComOutOfMemory)
    }

    /// COM_INVALID_CFG_MSG: Invalid config message
    pub fn com_invalid_cfg_msg(&self) -> (r: bool)
        ensures
            r == (*self is ComInvalidCfgMsg),
    {
        matches!(*self, TaosCode::ComInvalidCfgMsg)
    }

    /// COM_FILE_CORRUPTED: Data file corrupted
    pub fn com_file_corrupted(&self) -> (r: bool)
        ensures
            r == (*self is ComFileCorrupted),
    {
        matches!(*self, TaosCode::ComFileCorrupted)
    }

    /// REF_NO_MEMORY: Ref out of memory
    pub fn ref_no_memory(&self) -> (r: bool)
        ensures
            r == (*self is RefNoMemory),
    {
        matches!(*self, TaosCode::RefNoMemory)
    }

    /// REF_FULL: too many Ref Objs
    pub fn ref_full(&self) -> (r: bool)
        ensures
            r == (*self is RefFull),
    {
        matches!(*self, TaosCode::RefFull)
    }

    /// REF_ID_REMOVED: Ref ID is removed
    pub fn ref_id_removed(&self) -> (r: bool)
        ensures
            r == (*self is RefIdRemoved),
    {
        matches!(*self, TaosCode::RefIdRemoved)
    }

    /// REF_INVALID_ID: Invalid Ref ID
    pub fn ref_invalid_id(&self) -> (r: bool)
        ensures
            r == (*self is RefInvalidId),
    {
        matches!(*self, TaosCode::RefInvalidId)
    }

    /// REF_ALREADY_EXIST: Ref is already there
    pub fn ref_already_exist(&self) -> (r: bool)
        ensures
            r == (*self is RefAlreadyExist),
    {
        matches!(*self, TaosCode::RefAlreadyExist)
    }

    /// REF_NOT_EXIST: Ref is not there
    pub fn ref_not_exist(&self) -> (r: bool)
        ensures
            r == (*self is RefNotExist),
    {
        matches!(*self, TaosCode::RefNotExist)
    }

    /// TSC_INVALID_SQL: Invalid SQL statement
    pub fn tsc_invalid_sql(&self) -> (r: bool)
        ensures
            r == (*self is TscInvalidSql),
    {
        matches!(*self, TaosCode::TscInvalidSql)
    }

    /// TSC_INVALID_QHANDLE: Invalid qhandle
    pub fn tsc_invalid_qhandle(&self) -> (r: bool)
        ensures
            r == (*self is TscInvalidQhandle),
    {
        matches!(*self, TaosCode::TscInvalidQhandle)
    }

    /// TSC_INVALID_TIME_STAMP: Invalid combination of client/service time
    pub fn tsc_invalid_time_stamp(&self) -> (r: bool)
        ensures
            r == (*self is TscInvalidTimeStamp),
    {
        matches!(*self, TaosCode::TscInvalidTimeStamp)
    }

    /// TSC_INVALID_VALUE: Invalid value in client
    pub fn tsc_invalid_value(&self) -> (r: bool)
        ensures
            r == (*self is TscInvalidValue),
    {
        matches!(*self, TaosCode::TscInvalidValue)
    }

    /// TSC_INVALID_VERSION: Invalid client version
    pub fn tsc_invalid_version(&self) -> (r: bool)
        ensures
            r == (*self is TscInvalidVersion),
    {
        matches!(*self, TaosCode::TscInvalidVersion)
    }

    /// TSC_INVALID_IE: Invalid client ie
    pub fn tsc_invalid_ie(&self) -> (r: bool)
        ensures
            r == (*self is TscInvalidIe),
    {
        matches!(*self, TaosCode::TscInvalidIe)
    }

    /// TSC_INVALID_FQDN: Invalid host name
    pub fn tsc_invalid_fqdn(&self) -> (r: bool)
        ensures
            r == (*self is TscInvalidFqdn),
    {
        matches!(*self, TaosCode::TscInvalidFqdn)
    }

    /// TSC_INVALID_USER_LENGTH: Invalid user name
    pub fn tsc_invalid_user_length(&self) -> (r: bool)
        ensures
            r == (*self is TscInvalidUserLength),
    {
        matches!(*self, TaosCode::TscInvalidUserLength)
    }

    /// TSC_INVALID_PASS_LENGTH: Invalid password
    pub fn tsc_invalid_pass_length(&self) -> (r: bool)
        ensures
            r == (*self is TscInvalidPassLength),
    {
        matches!(*self, TaosCode::TscInvalidPassLength)
    }

    /// TSC_INVALID_DB_LENGTH: Database name too long
    pub fn tsc_invalid_db_length(&self) -> (r: bool)
        ensures
            r == (*self is TscInvalidDbLength),
    {
        matches!(*self, TaosCode::TscInvalidDbLength)
    }

    /// TSC_INVALID_TABLE_ID_LENGTH: Table name too long
    pub fn tsc_invalid_table_id_length(&self) -> (r: bool)
        ensures
            r == (*self is TscInvalidTableIdLength),
    {
        matches!(*self, TaosCode::TscInvalidTableIdLength)
    }

    /// TSC_INVALID_CONNECTION: Invalid connection
    pub fn tsc_invalid_connection(&self) -> (r: bool)
        ensures
            r == (*self is TscInvalidConnection),
    {
        matches!(*self, TaosCode::TscInvalidConnection)
    }

    /// TSC_OUT_OF_MEMORY: System out of memory
    pub fn tsc_out_of_memory(&self) -> (r: bool)
        ensures
            r == (*self is TscOutOfMemory),
    {
        matches!(*self, TaosCode::TscOutOfMemory)
    }

    /// TSC_NO_DISKSPACE: System out of disk space
    pub fn tsc_no_diskspace(&self) -> (r: bool)
        ensures
            r == (*self is TscNoDiskspace),
    {
        matches!(*self, TaosCode::TscNoDiskspace)
    }

    /// TSC_QUERY_CACHE_ERASED: Query cache erased
    pub fn tsc_query_cache_erased(&self) -> (r: bool)
        ensures
            r == (*self is TscQueryCacheErased),
    {
        matches!(*self, TaosCode::TscQueryCacheErased)
    }

    /// TSC_QUERY_CANCELLED: Query terminated
    pub fn tsc_query_cancelled(&self) -> (r: bool)
        ensures
            r == (*self is TscQueryCancelled),
    {
        matches!(*self, TaosCode::TscQueryCancelled)
    }

    /// TSC_SORTED_RES_TOO_MANY: Result set too large to be sorted
    pub fn tsc_sorted_res_too_many(&self) -> (r: bool)
        ensures
            r == (*self is TscSortedResTooMany),
    {
        matches!(*self, TaosCode::TscSortedResTooMany)
    }

    /// TSC_APP_ERROR: Application error
    pub fn tsc_app_error(&self) -> (r: bool)
        ensures
            r == (*self is TscAppError),
    {
        matches!(*self, TaosCode::TscAppError)
    }

    /// TSC_ACTION_IN_PROGRESS: Action in progress
    pub fn tsc_action_in_progress(&self) -> (r: bool)
        ensures
            r == (*self is TscActionInProgress),
    {
        matches!(*self, TaosCode::TscActionInProgress)
    }

    /// TSC_DISCONNECTED: Disconnected from service
    pub fn tsc_disconnected(&self) -> (r: bool)
        ensures
            r == (*self is TscDisconnected),
    {
        matches!(*self, TaosCode::TscDisconnected)
    }

    /// TSC_NO_WRITE_AUTH: No write permission
    pub fn tsc_no_write_auth(&self) -> (r: bool)
        ensures
            r == (*self is TscNoWriteAuth),
    {
        matches!(*self, TaosCode::TscNoWriteAuth)
    }

    /// TSC_CONN_KILLED: Connection killed
    pub fn tsc_conn_killed(&self) -> (r: bool)
        ensures
            r == (*self is TscConnKilled),
    {
        matches!(*self, TaosCode::TscConnKilled)
    }

    /// TSC_SQL_SYNTAX_ERROR: Syntax error in SQL
    pub fn tsc_sql_syntax_error(&self) -> (r: bool)
        ensures
            r == (*self is TscSqlSyntaxError),
    {
        matches!(*self, TaosCode::TscSqlSyntaxError)
    }

    /// TSC_DB_NOT_SELECTED: Database not specified or available
    pub fn tsc_db_not_selected(&self) -> (r: bool)
        ensures
            r == (*self is TscDbNotSelected),
    {
        matches!(*self, TaosCode::TscDbNotSelected)
    }

    /// TSC_INVALID_TABLE_NAME: Table does not exist
    pub fn tsc_invalid_table_name(&self) -> (r: bool)
        ensures
            r == (*self is TscInvalidTableName),
    {
        matches!(*self, TaosCode::TscInvalidTableName)
    }

    /// TSC_EXCEED_SQL_LIMIT: SQL statement too long check maxSQLLength config
    pub fn tsc_exceed_sql_limit(&self) -> (r: bool)
        ensures
            r == (*self is TscExceedSqlLimit),
    {
        matches!(*self, TaosCode::TscExceedSqlLimit)
    }

    /// MND_MSG_NOT_PROCESSED: Message not processed
    pub fn mnd_msg_not_processed(&self) -> (r: bool)
        ensures
            r == (*self is MndMsgNotProcessed),
    {
        matches!(*self, TaosCode::MndMsgNotProcessed)
    }

    /// MND_ACTION_IN_PROGRESS: Message is progressing
    pub fn mnd_action_in_progress(&self) -> (r: bool)
        ensures
            r == (*self is MndActionInProgress),
    {
        matches!(*self, TaosCode::MndActionInProgress)
    }

    /// MND_ACTION_NEED_REPROCESSED: Messag need to be reprocessed
    pub fn mnd_action_need_reprocessed(&self) -> (r: bool)
        ensures
            r == (*self is MndActionNeedReprocessed),
    {
        matches!(*self, TaosCode::MndActionNeedReprocessed)
    }

    /// MND_NO_RIGHTS: Insufficient privilege for operation
    pub fn mnd_no_rights(&self) -> (r: bool)
        ensures
            r == (*self is MndNoRights),
    {
        matches!(*self, TaosCode::MndNoRights)
    }

    /// MND_APP_ERROR: Unexpected generic error in mnode
    pub fn mnd_app_error(&self) -> (r: bool)
        ensures
            r == (*self is MndAppError),
    {
        matches!(*self, TaosCode::MndAppError)
    }

    /// MND_INVALID_CONNECTION: Invalid message connection
    pub fn mnd_invalid_connection(&self) -> (r: bool)
        ensures
            r == (*self is MndInvalidConnection),
    {
        matches!(*self, TaosCode::MndInvalidConnection)
    }

    /// MND_INVALID_MSG_VERSION: Incompatible protocol version
    pub fn mnd_invalid_msg_version(&self) -> (r: bool)
        ensures
            r == (*self is MndInvalidMsgVersion),
    {
        matches!(*self, TaosCode::MndInvalidMsgVersion)
    }

    /// MND_INVALID_MSG_LEN: Invalid message length
    pub fn mnd_invalid_msg_len(&self) -> (r: bool)
        ensures
            r == (*self is MndInvalidMsgLen),
    {
        matches!(*self, TaosCode::MndInvalidMsgLen)
    }

    /// MND_INVALID_MSG_TYPE: Invalid message type
    pub fn mnd_invalid_msg_type(&self) -> (r: bool)
        ensures
            r == (*self is MndInvalidMsgType),
    {
        matches!(*self, TaosCode::MndInvalidMsgType)
    }

    /// MND_TOO_MANY_SHELL_CONNS: Too many connections
    pub fn mnd_too_many_shell_conns(&self) -> (r: bool)
        ensures
            r == (*self is MndTooManyShellConns),
    {
        matches!(*self, TaosCode::MndTooManyShellConns)
    }

    /// MND_OUT_OF_MEMORY: Out of memory in mnode
    pub fn mnd_out_of_memory(&self) -> (r: bool)
        ensures
            r == (*self is MndOutOfMemory),
    {
        matches!(*self, TaosCode::MndOutOfMemory)
    }

    /// MND_INVALID_SHOWOBJ: Data expired
    pub fn mnd_invalid_showobj(&self) -> (r: bool)
        ensures
            r == (*self is MndInvalidShowobj),
    {
        matches!(*self, TaosCode::MndInvalidShowobj)
    }

    /// MND_INVALID_QUERY_ID: Invalid query id
    pub fn mnd_invalid_query_id(&self) -> (r: bool)
        ensures
            r == (*self is MndInvalidQueryId),
    {
        matches!(*self, TaosCode::MndInvalidQueryId)
    }

    /// MND_INVALID_STREAM_ID: Invalid stream id
    pub fn mnd_invalid_stream_id(&self) -> (r: bool)
        ensures
            r == (*self is MndInvalidStreamId),
    {
        matches!(*self, TaosCode::MndInvalidStreamId)
    }

    /// MND_INVALID_CONN_ID: Invalid connection id
    pub fn mnd_invalid_conn_id(&self) -> (r: bool)
        ensures
            r == (*self is MndInvalidConnId),
    {
        matches!(*self, TaosCode::MndInvalidConnId)
    }

    /// MND_MNODE_IS_RUNNING: mnode is alreay running
    pub fn mnd_mnode_is_running(&self) -> (r: bool)
        ensures
            r == (*self is MndMnodeIsRunning),
    {
        matches!(*self, TaosCode::MndMnodeIsRunning)
    }

    /// MND_FAILED_TO_CONFIG_SYNC: failed to config sync
    pub fn mnd_failed_to_config_sync(&self) -> (r: bool)
        ensures
            r == (*self is MndFailedToConfigSync),
    {
        matches!(*self, TaosCode::MndFailedToConfigSync)
    }

    /// MND_FAILED_TO_START_SYNC: failed to start sync
    pub fn mnd_failed_to_start_sync(&self) -> (r: bool)
        ensures
            r == (*self is MndFailedToStartSync),
    {
        matches!(*self, TaosCode::MndFailedToStartSync)
    }

    /// MND_FAILED_TO_CREATE_DIR: failed to create mnode dir
    pub fn mnd_failed_to_create_dir(&self) -> (r: bool)
        ensures
            r == (*self is MndFailedToCreateDir),
    {
        matches!(*self, TaosCode::MndFailedToCreateDir)
    }

    /// MND_FAILED_TO_INIT_STEP: failed to init components
    pub fn mnd_failed_to_init_step(&self) -> (r: bool)
        ensures
            r == (*self is MndFailedToInitStep),
    {
        matches!(*self, TaosCode::MndFailedToInitStep)
    }

    /// MND_SDB_OBJ_ALREADY_THERE: Object already there
    pub fn mnd_sdb_obj_already_there(&self) -> (r: bool)
        ensures
            r == (*self is MndSdbObjAlreadyThere),
    {
        matches!(*self, TaosCode::MndSdbObjAlreadyThere)
    }

    /// MND_SDB_ERROR: Unexpected generic error in sdb
    pub fn mnd_sdb_error(&self) -> (r: bool)
        ensures
            r == (*self is MndSdbError),
    {
        matches!(*self, TaosCode::MndSdbError)
    }

    /// MND_SDB_INVALID_TABLE_TYPE: Invalid table type
    pub fn mnd_sdb_invalid_table_type(&self) -> (r: bool)
        ensures
            r == (*self is MndSdbInvalidTableType),
    {
        matches!(*self, TaosCode::MndSdbInvalidTableType)
    }

    /// MND_SDB_OBJ_NOT_THERE: Object not there
    pub fn mnd_sdb_obj_not_there(&self) -> (r: bool)
        ensures
            r == (*self is MndSdbObjNotThere),
    {
        matches!(*self, TaosCode::MndSdbObjNotThere)
    }

    /// MND_SDB_INVAID_META_ROW: Invalid meta row
    pub fn mnd_sdb_invaid_meta_row(&self) -> (r: bool)
        ensures
            r == (*self is MndSdbInvaidMetaRow),
    {
        matches!(*self, TaosCode::MndSdbInvaidMetaRow)
    }

    /// MND_SDB_INVAID_KEY_TYPE: Invalid key type
    pub fn mnd_sdb_invaid_key_type(&self) -> (r: bool)
        ensures
            r == (*self is MndSdbInvaidKeyType),
    {
        matches!(*self, TaosCode::MndSdbInvaidKeyType)
    }

    /// MND_DNODE_ALREADY_EXIST: DNode already exists
    pub fn mnd_dnode_already_exist(&self) -> (r: bool)
        ensures
            r == (*self is MndDnodeAlreadyExist),
    {
        matches!(*self, TaosCode::MndDnodeAlreadyExist)
    }

    /// MND_DNODE_NOT_EXIST: DNode does not exist
    pub fn mnd_dnode_not_exist(&self) -> (r: bool)
        ensures
            r == (*self is MndDnodeNotExist),
    {
        matches!(*self, TaosCode::MndDnodeNotExist)
    }

    /// MND_VGROUP_NOT_EXIST: VGroup does not exist
    pub fn mnd_vgroup_not_exist(&self) -> (r: bool)
        ensures
            r == (*self is MndVgroupNotExist),
    {
        matches!(*self, TaosCode::MndVgroupNotExist)
    }

    /// MND_NO_REMOVE_MASTER: Master DNode cannot be removed
    pub fn mnd_no_remove_master(&self) -> (r: bool)
        ensures
            r == (*self is MndNoRemoveMaster),
    {
        matches!(*self, TaosCode::MndNoRemoveMaster)
    }

    /// MND_NO_ENOUGH_DNODES: Out of DNodes
    pub fn mnd_no_enough_dnodes(&self) -> (r: bool)
        ensures
            r == (*self is MndNoEnoughDnodes),
    {
        matches!(*self, TaosCode::MndNoEnoughDnodes)
    }

    /// MND_CLUSTER_CFG_INCONSISTENT: Cluster cfg inconsistent
    pub fn mnd_cluster_cfg_inconsistent(&self) -> (r: bool)
        ensures
            r == (*self is MndClusterCfgInconsistent),
    {
        matches!(*self, TaosCode::MndClusterCfgInconsistent)
    }

    /// MND_INVALID_DNODE_CFG_OPTION: Invalid dnode cfg option
    pub fn mnd_invalid_dnode_cfg_option(&self) -> (r: bool)
        ensures
            r == (*self is MndInvalidDnodeCfgOption),
    {
        matches!(*self, TaosCode::MndInvalidDnodeCfgOption)
    }

    /// MND_BALANCE_ENABLED: Balance already enabled
    pub fn mnd_balance_enabled(&self) -> (r: bool)
        ensures
            r == (*self is MndBalanceEnabled),
    {
        matches!(*self, TaosCode::MndBalanceEnabled)
    }

    /// MND_VGROUP_NOT_IN_DNODE: Vgroup not in dnode
    pub fn mnd_vgroup_not_in_dnode(&self) -> (r: bool)
        ensures
            r == (*self is MndVgroupNotInDnode),
    {
        matches!(*self, TaosCode::MndVgroupNotInDnode)
    }

    /// MND_VGROUP_ALREADY_IN_DNODE: Vgroup already in dnode
    pub fn mnd_vgroup_already_in_dnode(&self) -> (r: bool)
        ensures
            r == (*self is MndVgroupAlreadyInDnode),
    {
        matches!(*self, TaosCode::MndVgroupAlreadyInDnode)
    }

    /// MND_DNODE_NOT_FREE: Dnode not avaliable
    pub fn mnd_dnode_not_free(&self) -> (r: bool)
        ensures
            r == (*self is MndDnodeNotFree),
    {
        matches!(*self, TaosCode::MndDnodeNotFree)
    }

    /// MND_INVALID_CLUSTER_ID: Cluster id not match
    pub fn mnd_invalid_cluster_id(&self) -> (r: bool)
        ensures
            r == (*self is MndInvalidClusterId),
    {
        matches!(*self, TaosCode::MndInvalidClusterId)
    }

    /// MND_NOT_READY: Cluster not ready
    pub fn mnd_not_ready(&self) -> (r: bool)
        ensures
            r == (*self is MndNotReady),
    {
        matches!(*self, TaosCode::MndNotReady)
    }

    /// MND_DNODE_ID_NOT_CONFIGURED: Dnode Id not configured
    pub fn mnd_dnode_id_not_configured(&self) -> (r: bool)
        ensures
            r == (*self is MndDnodeIdNotConfigured),
    {
        matches!(*self, TaosCode::MndDnodeIdNotConfigured)
    }

    /// MND_DNODE_EP_NOT_CONFIGURED: Dnode Ep not configured
    pub fn mnd_dnode_ep_not_configured(&self) -> (r: bool)
        ensures
            r == (*self is MndDnodeEpNotConfigured),
    {
        matches!(*self, TaosCode::MndDnodeEpNotConfigured)
    }

    /// MND_ACCT_ALREADY_EXIST: Account already exists
    pub fn mnd_acct_already_exist(&self) -> (r: bool)
        ensures
            r == (*self is MndAcctAlreadyExist),
    {
        matches!(*self, TaosCode::MndAcctAlreadyExist)
    }

    /// MND_INVALID_ACCT: Invalid account
    pub fn mnd_invalid_acct(&self) -> (r: bool)
        ensures
            r == (*self is MndInvalidAcct),
    {
        matches!(*self, TaosCode::MndInvalidAcct)
    }

    /// MND_INVALID_ACCT_OPTION: Invalid account options
    pub fn mnd_invalid_acct_option(&self) -> (r: bool)
        ensures
            r == (*self is MndInvalidAcctOption),
    {
        matches!(*self, TaosCode::MndInvalidAcctOption)
    }

    /// MND_ACCT_EXPIRED: Account authorization has expired
    pub fn mnd_acct_expired(&self) -> (r: bool)
        ensures
            r == (*self is MndAcctExpired),
    {
        matches!(*self, TaosCode::MndAcctExpired)
    }

    /// MND_USER_ALREADY_EXIST: User already exists
    pub fn mnd_user_already_exist(&self) -> (r: bool)
        ensures
            r == (*self is MndUserAlreadyExist),
    {
        matches!(*self, TaosCode::MndUserAlreadyExist)
    }

    /// MND_INVALID_USER: Invalid user
    pub fn mnd_invalid_user(&self) -> (r: bool)
        ensures
            r == (*self is MndInvalidUser),
    {
        matches!(*self, TaosCode::MndInvalidUser)
    }

    /// MND_INVALID_USER_FORMAT: Invalid user format
    pub fn mnd_invalid_user_format(&self) -> (r: bool)
        ensures
            r == (*self is MndInvalidUserFormat),
    {
        matches!(*self, TaosCode::MndInvalidUserFormat)
    }

    /// MND_INVALID_PASS_FORMAT: Invalid password format
    pub fn mnd_invalid_pass_format(&self) -> (r: bool)
        ensures
            r == (*self is MndInvalidPassFormat),
    {
        matches!(*self, TaosCode::MndInvalidPassFormat)
    }

    /// MND_NO_USER_FROM_CONN: Can not get user from conn
    pub fn mnd_no_user_from_conn(&self) -> (r: bool)
        ensures
            r == (*self is MndNoUserFromConn),
    {
        matches!(*self, TaosCode::MndNoUserFromConn)
    }

    /// MND_TOO_MANY_USERS: Too many users
    pub fn mnd_too_many_users(&self) -> (r: bool)
        ensures
            r == (*self is MndTooManyUsers),
    {
        matches!(*self, TaosCode::MndTooManyUsers)
    }

    /// MND_TABLE_ALREADY_EXIST: Table already exists
    pub fn mnd_table_already_exist(&self) -> (r: bool)
        ensures
            r == (*self is MndTableAlreadyExist),
    {
        matches!(*self, TaosCode::MndTableAlreadyExist)
    }

    /// MND_INVALID_TABLE_ID: Table name too long
    pub fn mnd_invalid_table_id(&self) -> (r: bool)
        ensures
            r == (*self is MndInvalidTableId),
    {
        matches!(*self, TaosCode::MndInvalidTableId)
    }

    /// MND_INVALID_TABLE_NAME: Table does not exist
    pub fn mnd_invalid_table_name(&self) -> (r: bool)
        ensures
            r == (*self is MndInvalidTableName),
    {
        matches!(*self, TaosCode::MndInvalidTableName)
    }

    /// MND_INVALID_TABLE_TYPE: Invalid table type in tsdb
    pub fn mnd_invalid_table_type(&self) -> (r: bool)
        ensures
            r == (*self is MndInvalidTableType),
    {
        matches!(*self, TaosCode::MndInvalidTableType)
    }

    /// MND_TOO_MANY_TAGS: Too many tags
    pub fn mnd_too_many_tags(&self) -> (r: bool)
        ensures
            r == (*self is MndTooManyTags),
    {
        matches!(*self, TaosCode::MndTooManyTags)
    }

    /// MND_TOO_MANY_COLUMNS: Too many columns
    pub fn mnd_too_many_columns(&self) -> (r: bool)
        ensures
            r == (*self is MndTooManyColumns),
    {
        matches!(*self, TaosCode::MndTooManyColumns)
    }

    /// MND_TOO_MANY_TIMESERIES: Too many time series
    pub fn mnd_too_many_timeseries(&self) -> (r: bool)
        ensures
            r == (*self is MndTooManyTimeseries),
    {
        matches!(*self, TaosCode::MndTooManyTimeseries)
    }

    /// MND_NOT_SUPER_TABLE: Not super table
    pub fn mnd_not_super_table(&self) -> (r: bool)
        ensures
            r == (*self is MndNotSuperTable),
    {
        matches!(*self, TaosCode::MndNotSuperTable)
    }

    /// MND_COL_NAME_TOO_LONG: Tag name too long
    pub fn mnd_col_name_too_long(&self) -> (r: bool)
        ensures
            r == (*self is MndColNameTooLong),
    {
        matches!(*self, TaosCode::MndColNameTooLong)
    }

    /// MND_TAG_ALREAY_EXIST: Tag already exists
    pub fn mnd_tag_alreay_exist(&self) -> (r: bool)
        ensures
            r == (*self is MndTagAlreayExist),
    {
        matches!(*self, TaosCode::MndTagAlreayExist)
    }

    /// MND_TAG_NOT_EXIST: Tag does not exist
    pub fn mnd_tag_not_exist(&self) -> (r: bool)
        ensures
            r == (*self is MndTagNotExist),
    {
        matches!(*self, TaosCode::MndTagNotExist)
    }

    /// MND_FIELD_ALREAY_EXIST: Field already exists
    pub fn mnd_field_alreay_exist(&self) -> (r: bool)
        ensures
            r == (*self is MndFieldAlreayExist),
    {
        matches!(*self, TaosCode::MndFieldAlreayExist)
    }

    /// MND_FIELD_NOT_EXIST: Field does not exist
    pub fn mnd_field_not_exist(&self) -> (r: bool)
        ensures
            r == (*self is MndFieldNotExist),
    {
        matches!(*self, TaosCode::MndFieldNotExist)
    }

    /// MND_INVALID_STABLE_NAME: Super table does not exist
    pub fn mnd_invalid_stable_name(&self) -> (r: bool)
        ensures
            r == (*self is MndInvalidStableName),
    {
        matches!(*self, TaosCode::MndInvalidStableName)
    }

    /// MND_INVALID_CREATE_TABLE_MSG: Invalid create table message
    pub fn mnd_invalid_create_table_msg(&self) -> (r: bool)
        ensures
            r == (*self is MndInvalidCreateTableMsg),
    {
        matches!(*self, TaosCode::MndInvalidCreateTableMsg)
    }

    /// MND_DB_NOT_SELECTED: Database not specified or available
    pub fn mnd_db_not_selected(&self) -> (r: bool)
        ensures
            r == (*self is MndDbNotSelected),
    {
        matches!(*self, TaosCode::MndDbNotSelected)
    }

    /// MND_DB_ALREADY_EXIST: Database already exists
    pub fn mnd_db_already_exist(&self) -> (r: bool)
        ensures
            r == (*self is MndDbAlreadyExist),
    {
        matches!(*self, TaosCode::MndDbAlreadyExist)
    }

    /// MND_INVALID_DB_OPTION: Invalid database options
    pub fn mnd_invalid_db_option(&self) -> (r: bool)
        ensures
            r == (*self is MndInvalidDbOption),
    {
        matches!(*self, TaosCode::MndInvalidDbOption)
    }

    /// MND_INVALID_DB: Invalid database name
    pub fn mnd_invalid_db(&self) -> (r: bool)
        ensures
            r == (*self is MndInvalidDb),
    {
        matches!(*self, TaosCode::MndInvalidDb)
    }

    /// MND_MONITOR_DB_FORBIDDEN: Cannot delete monitor database
    pub fn mnd_monitor_db_forbidden(&self) -> (r: bool)
        ensures
            r == (*self is MndMonitorDbForbidden),
    {
        matches!(*self, TaosCode::MndMonitorDbForbidden)
    }

    /// MND_TOO_MANY_DATABASES: Too many databases for account
    pub fn mnd_too_many_databases(&self) -> (r: bool)
        ensures
            r == (*self is MndTooManyDatabases),
    {
        matches!(*self, TaosCode::MndTooManyDatabases)
    }

    /// MND_DB_IN_DROPPING: Database not available
    pub fn mnd_db_in_dropping(&self) -> (r: bool)
        ensures
            r == (*self is MndDbInDropping),
    {
        matches!(*self, TaosCode::MndDbInDropping)
    }

    /// MND_VGROUP_NOT_READY: Database unsynced
    pub fn mnd_vgroup_not_ready(&self) -> (r: bool)
        ensures
            r == (*self is MndVgroupNotReady),
    {
        matches!(*self, TaosCode::MndVgroupNotReady)
    }

    /// MND_INVALID_DB_OPTION_DAYS: Invalid database option: days out of range
    pub fn mnd_invalid_db_option_days(&self) -> (r: bool)
        ensures
            r == (*self is MndInvalidDbOptionDays),
    {
        matches!(*self, TaosCode::MndInvalidDbOptionDays)
    }

    /// MND_INVALID_DB_OPTION_KEEP: Invalid database option: keep >= keep1 >= keep0 >= days
    pub fn mnd_invalid_db_option_keep(&self) -> (r: bool)
        ensures
            r == (*self is MndInvalidDbOptionKeep),
    {
        matches!(*self, TaosCode::MndInvalidDbOptionKeep)
    }

    /// MND_INVALID_TOPIC: Invalid topic nam
    pub fn mnd_invalid_topic(&self) -> (r: bool)
        ensures
            r == (*self is MndInvalidTopic),
    {
        matches!(*self, TaosCode::MndInvalidTopic)
    }

    /// MND_INVALID_TOPIC_OPTION: Invalid topic optio
    pub fn mnd_invalid_topic_option(&self) -> (r: bool)
        ensures
            r == (*self is MndInvalidTopicOption),
    {
        matches!(*self, TaosCode::MndInvalidTopicOption)
    }

    /// MND_INVALID_TOPIC_PARTITONS: Invalid topic partitons num, valid range: [1, 1000
    pub fn mnd_invalid_topic_partitons(&self) -> (r: bool)
        ensures
            r == (*self is MndInvalidTopicPartitons),
    {
        matches!(*self, TaosCode::MndInvalidTopicPartitons)
    }

    /// MND_TOPIC_ALREADY_EXIST: Topic already exist
    pub fn mnd_topic_already_exist(&self) -> (r: bool)
        ensures
            r == (*self is MndTopicAlreadyExist),
    {
        matches!(*self, TaosCode::MndTopicAlreadyExist)
    }

    /// DND_MSG_NOT_PROCESSED: Message not processed
    pub fn dnd_msg_not_processed(&self) -> (r: bool)
        ensures
            r == (*self is DndMsgNotProcessed),
    {
        matches!(*self, TaosCode::DndMsgNotProcessed)
    }

    /// DND_OUT_OF_MEMORY: Dnode out of memory
    pub fn dnd_out_of_memory(&self) -> (r: bool)
        ensures
            r == (*self is DndOutOfMemory),
    {
        matches!(*self, TaosCode::DndOutOfMemory)
    }

    /// DND_NO_WRITE_ACCESS: No permission for disk files in dnode
    pub fn dnd_no_write_access(&self) -> (r: bool)
        ensures
            r == (*self is DndNoWriteAccess),
    {
        matches!(*self, TaosCode::DndNoWriteAccess)
    }

    /// DND_INVALID_MSG_LEN: Invalid message length
    pub fn dnd_invalid_msg_len(&self) -> (r: bool)
        ensures
            r == (*self is DndInvalidMsgLen),
    {
        matches!(*self, TaosCode::DndInvalidMsgLen)
    }

    /// DND_ACTION_IN_PROGRESS: Action in progress
    pub fn dnd_action_in_progress(&self) -> (r: bool)
        ensures
            r == (*self is DndActionInProgress),
    {
        matches!(*self, TaosCode::DndActionInProgress)
    }

    /// DND_TOO_MANY_VNODES: Too many vnode directories
    pub fn dnd_too_many_vnodes(&self) -> (r: bool)
        ensures
            r == (*self is DndTooManyVnodes),
    {
        matches!(*self, TaosCode::DndTooManyVnodes)
    }

    /// VND_ACTION_IN_PROGRESS: Action in progress
    pub fn vnd_action_in_progress(&self) -> (r: bool)
        ensures
            r == (*self is VndActionInProgress),
    {
        matches!(*self, TaosCode::VndActionInProgress)
    }

    /// VND_MSG_NOT_PROCESSED: Message not processed
    pub fn vnd_msg_not_processed(&self) -> (r: bool)
        ensures
            r == (*self is VndMsgNotProcessed),
    {
        matches!(*self, TaosCode::VndMsgNotProcessed)
    }

    /// VND_ACTION_NEED_REPROCESSED: Action need to be reprocessed
    pub fn vnd_action_need_reprocessed(&self) -> (r: bool)
        ensures
            r == (*self is VndActionNeedReprocessed),
    {
        matches!(*self, TaosCode::VndActionNeedReprocessed)
    }

    /// VND_INVALID_VGROUP_ID: Invalid Vgroup ID
    pub fn vnd_invalid_vgroup_id(&self) -> (r: bool)
        ensures
            r == (*self is VndInvalidVgroupId),
    {
        matches!(*self, TaosCode::VndInvalidVgroupId)
    }

    /// VND_INIT_FAILED: Vnode initialization failed
    pub fn vnd_init_failed(&self) -> (r: bool)
        ensures
            r == (*self is VndInitFailed),
    {
        matches!(*self, TaosCode::VndInitFailed)
    }

    /// VND_NO_DISKSPACE: System out of disk space
    pub fn vnd_no_diskspace(&self) -> (r: bool)
        ensures
            r == (*self is VndNoDiskspace),
    {
        matches!(*self, TaosCode::VndNoDiskspace)
    }

    /// VND_NO_DISK_PERMISSIONS: No write permission for disk files
    pub fn vnd_no_disk_permissions(&self) -> (r: bool)
        ensures
            r == (*self is VndNoDiskPermissions),
    {
        matches!(*self, TaosCode::VndNoDiskPermissions)
    }

    /// VND_NO_SUCH_FILE_OR_DIR: Missing data file
    pub fn vnd_no_such_file_or_dir(&self) -> (r: bool)
        ensures
            r == (*self is VndNoSuchFileOrDir),
    {
        matches!(*self, TaosCode::VndNoSuchFileOrDir)
    }

    /// VND_OUT_OF_MEMORY: Out of memory
    pub fn vnd_out_of_memory(&self) -> (r: bool)
        ensures
            r == (*self is VndOutOfMemory),
    {
        matches!(*self, TaosCode::VndOutOfMemory)
    }

    /// VND_APP_ERROR: Unexpected generic error in vnode
    pub fn vnd_app_error(&self) -> (r: bool)
        ensures
            r == (*self is VndAppError),
    {
        matches!(*self, TaosCode::VndAppError)
    }

    /// VND_INVALID_VRESION_FILE: Invalid version file
    pub fn vnd_invalid_vresion_file(&self) -> (r: bool)
        ensures
            r == (*self is VndInvalidVresionFile),
    {
        matches!(*self, TaosCode::VndInvalidVresionFile)
    }

    /// VND_IS_FULL: Database memory is full for commit failed
    pub fn vnd_is_full(&self) -> (r: bool)
        ensures
            r == (*self is VndIsFull),
    {
        matches!(*self, TaosCode::VndIsFull)
    }

    /// VND_IS_FLOWCTRL: Database memory is full for waiting commit
    pub fn vnd_is_flowctrl(&self) -> (r: bool)
        ensures
            r == (*self is VndIsFlowctrl),
    {
        matches!(*self, TaosCode::VndIsFlowctrl)
    }

    /// VND_IS_DROPPING: Database is dropping
    pub fn vnd_is_dropping(&self) -> (r: bool)
        ensures
            r == (*self is VndIsDropping),
    {
        matches!(*self, TaosCode::VndIsDropping)
    }

    /// VND_IS_BALANCING: Database is balancing
    pub fn vnd_is_balancing(&self) -> (r: bool)
        ensures
            r == (*self is VndIsBalancing),
    {
        matches!(*self, TaosCode::VndIsBalancing)
    }

    /// VND_NOT_SYNCED: Database suspended
    pub fn vnd_not_synced(&self) -> (r: bool)
        ensures
            r == (*self is VndNotSynced),
    {
        matches!(*self, TaosCode::VndNotSynced)
    }

    /// VND_NO_WRITE_AUTH: Database write operation denied
    pub fn vnd_no_write_auth(&self) -> (r: bool)
        ensures
            r == (*self is VndNoWriteAuth),
    {
        matches!(*self, TaosCode::VndNoWriteAuth)
    }

    /// VND_IS_SYNCING: Database is syncing
    pub fn vnd_is_syncing(&self) -> (r: bool)
        ensures
            r == (*self is VndIsSyncing),
    {
        matches!(*self, TaosCode::VndIsSyncing)
    }

    /// TDB_INVALID_TABLE_ID: Invalid table ID
    pub fn tdb_invalid_table_id(&self) -> (r: bool)
        ensures
            r == (*self is TdbInvalidTableId),
    {
        matches!(*self, TaosCode::TdbInvalidTableId)
    }

    /// TDB_INVALID_TABLE_TYPE: Invalid table type
    pub fn tdb_invalid_table_type(&self) -> (r: bool)
        ensures
            r == (*self is TdbInvalidTableType),
    {
        matches!(*self, TaosCode::TdbInvalidTableType)
    }

    /// TDB_IVD_TB_SCHEMA_VERSION: Invalid table schema version
    pub fn tdb_ivd_tb_schema_version(&self) -> (r: bool)
        ensures
            r == (*self is TdbIvdTbSchemaVersion),
    {
        matches!(*self, TaosCode::TdbIvdTbSchemaVersion)
    }

    /// TDB_TABLE_ALREADY_EXIST: Table already exists
    pub fn tdb_table_already_exist(&self) -> (r: bool)
        ensures
            r == (*self is TdbTableAlreadyExist),
    {
        matches!(*self, TaosCode::TdbTableAlreadyExist)
    }

    /// TDB_INVALID_CONFIG: Invalid configuration
    pub fn tdb_invalid_config(&self) -> (r: bool)
        ensures
            r == (*self is TdbInvalidConfig),
    {
        matches!(*self, TaosCode::TdbInvalidConfig)
    }

    /// TDB_INIT_FAILED: Tsdb init failed
    pub fn tdb_init_failed(&self) -> (r: bool)
        ensures
            r == (*self is TdbInitFailed),
    {
        matches!(*self, TaosCode::TdbInitFailed)
    }

    /// TDB_NO_DISKSPACE: No diskspace for tsdb
    pub fn tdb_no_diskspace(&self) -> (r: bool)
        ensures
            r == (*self is TdbNoDiskspace),
    {
        matches!(*self, TaosCode::TdbNoDiskspace)
    }

    /// TDB_NO_DISK_PERMISSIONS: No permission for disk files
    pub fn tdb_no_disk_permissions(&self) -> (r: bool)
        ensures
            r == (*self is TdbNoDiskPermissions),
    {
        matches!(*self, TaosCode::TdbNoDiskPermissions)
    }

    /// TDB_FILE_CORRUPTED: Data file(s) corrupted
    pub fn tdb_file_corrupted(&self) -> (r: bool)
        ensures
            r == (*self is TdbFileCorrupted),
    {
        matches!(*self, TaosCode::TdbFileCorrupted)
    }

    /// TDB_OUT_OF_MEMORY: Out of memory
    pub fn tdb_out_of_memory(&self) -> (r: bool)
        ensures
            r == (*self is TdbOutOfMemory),
    {
        matches!(*self, TaosCode::TdbOutOfMemory)
    }

    /// TDB_TAG_VER_OUT_OF_DATE: Tag too old
    pub fn tdb_tag_ver_out_of_date(&self) -> (r: bool)
        ensures
            r == (*self is TdbTagVerOutOfDate),
    {
        matches!(*self, TaosCode::TdbTagVerOutOfDate)
    }

    /// TDB_TIMESTAMP_OUT_OF_RANGE: Timestamp data out of range
    pub fn tdb_timestamp_out_of_range(&self) -> (r: bool)
        ensures
            r == (*self is TdbTimestampOutOfRange),
    {
        matches!(*self, TaosCode::TdbTimestampOutOfRange)
    }

    /// TDB_SUBMIT_MSG_MSSED_UP: Submit message is messed up
    pub fn tdb_submit_msg_mssed_up(&self) -> (r: bool)
        ensures
            r == (*self is TdbSubmitMsgMssedUp),
    {
        matches!(*self, TaosCode::TdbSubmitMsgMssedUp)
    }

    /// TDB_INVALID_ACTION: Invalid operation
    pub fn tdb_invalid_action(&self) -> (r: bool)
        ensures
            r == (*self is TdbInvalidAction),
    {
        matches!(*self, TaosCode::TdbInvalidAction)
    }

    /// TDB_INVALID_CREATE_TB_MSG: Invalid creation of table
    pub fn tdb_invalid_create_tb_msg(&self) -> (r: bool)
        ensures
            r == (*self is TdbInvalidCreateTbMsg),
    {
        matches!(*self, TaosCode::TdbInvalidCreateTbMsg)
    }

    /// TDB_NO_TABLE_DATA_IN_MEM: No table data in memory skiplist
    pub fn tdb_no_table_data_in_mem(&self) -> (r: bool)
        ensures
            r == (*self is TdbNoTableDataInMem),
    {
        matches!(*self, TaosCode::TdbNoTableDataInMem)
    }

    /// TDB_FILE_ALREADY_EXISTS: File already exists
    pub fn tdb_file_already_exists(&self) -> (r: bool)
        ensures
            r == (*self is TdbFileAlreadyExists),
    {
        matches!(*self, TaosCode::TdbFileAlreadyExists)
    }

    /// TDB_TABLE_RECONFIGURE: Need to reconfigure table
    pub fn tdb_table_reconfigure(&self) -> (r: bool)
        ensures
            r == (*self is TdbTableReconfigure),
    {
        matches!(*self, TaosCode::TdbTableReconfigure)
    }

    /// TDB_IVD_CREATE_TABLE_INFO: Invalid information to create table
    pub fn tdb_ivd_create_table_info(&self) -> (r: bool)
        ensures
            r == (*self is TdbIvdCreateTableInfo),
    {
        matches!(*self, TaosCode::TdbIvdCreateTableInfo)
    }

    /// TDB_NO_AVAIL_DISK: No available disk
    pub fn tdb_no_avail_disk(&self) -> (r: bool)
        ensures
            r == (*self is TdbNoAvailDisk),
    {
        matches!(*self, TaosCode::TdbNoAvailDisk)
    }

    /// TDB_MESSED_MSG: TSDB messed message
    pub fn tdb_messed_msg(&self) -> (r: bool)
        ensures
            r == (*self is TdbMessedMsg),
    {
        matches!(*self, TaosCode::TdbMessedMsg)
    }

    /// TDB_IVLD_TAG_VAL: TSDB invalid tag value
    pub fn tdb_ivld_tag_val(&self) -> (r: bool)
        ensures
            r == (*self is TdbIvldTagVal),
    {
        matches!(*self, TaosCode::TdbIvldTagVal)
    }

    /// QRY_INVALID_QHANDLE: Invalid handle
    pub fn qry_invalid_qhandle(&self) -> (r: bool)
        ensures
            r == (*self is QryInvalidQhandle),
    {
        matches!(*self, TaosCode::QryInvalidQhandle)
    }

    /// QRY_INVALID_MSG: Invalid message
    pub fn qry_invalid_msg(&self) -> (r: bool)
        ensures
            r == (*self is QryInvalidMsg),
    {
        matches!(*self, TaosCode::QryInvalidMsg)
    }

    /// QRY_NO_DISKSPACE: No diskspace for query
    pub fn qry_no_diskspace(&self) -> (r: bool)
        ensures
            r == (*self is QryNoDiskspace),
    {
        matches!(*self, TaosCode::QryNoDiskspace)
    }

    /// QRY_OUT_OF_MEMORY: System out of memory
    pub fn qry_out_of_memory(&self) -> (r: bool)
        ensures
            r == (*self is QryOutOfMemory),
    {
        matches!(*self, TaosCode::QryOutOfMemory)
    }

    /// QRY_APP_ERROR: Unexpected generic error in query
    pub fn qry_app_error(&self) -> (r: bool)
        ensures
            r == (*self is QryAppError),
    {
        matches!(*self, TaosCode::QryAppError)
    }

    /// QRY_DUP_JOIN_KEY: Duplicated join key
    pub fn qry_dup_join_key(&self) -> (r: bool)
        ensures
            r == (*self is QryDupJoinKey),
    {
        matches!(*self, TaosCode::QryDupJoinKey)
    }

    /// QRY_EXCEED_TAGS_LIMIT: Tag conditon too many
    pub fn qry_exceed_tags_limit(&self) -> (r: bool)
        ensures
            r == (*self is QryExceedTagsLimit),
    {
        matches!(*self, TaosCode::QryExceedTagsLimit)
    }

    /// QRY_NOT_READY: Query not ready
    pub fn qry_not_ready(&self) -> (r: bool)
        ensures
            r == (*self is QryNotReady),
    {
        matches!(*self, TaosCode::QryNotReady)
    }

    /// QRY_HAS_RSP: Query should response
    pub fn qry_has_rsp(&self) -> (r: bool)
        ensures
            r == (*self is QryHasRsp),
    {
        matches!(*self, TaosCode::QryHasRsp)
    }

    /// QRY_IN_EXEC: Multiple retrieval of this query
    pub fn qry_in_exec(&self) -> (r: bool)
        ensures
            r == (*self is QryInExec),
    {
        matches!(*self, TaosCode::QryInExec)
    }

    /// QRY_TOO_MANY_TIMEWINDOW: Too many time window in query
    pub fn qry_too_many_timewindow(&self) -> (r: bool)
        ensures
            r == (*self is QryTooManyTimewindow),
    {
        matches!(*self, TaosCode::QryTooManyTimewindow)
    }

    /// QRY_NOT_ENOUGH_BUFFER: Query buffer limit has reached
    pub fn qry_not_enough_buffer(&self) -> (r: bool)
        ensures
            r == (*self is QryNotEnoughBuffer),
    {
        matches!(*self, TaosCode::QryNotEnoughBuffer)
    }

    /// QRY_INCONSISTAN: File inconsistency in replica
    pub fn qry_inconsistan(&self) -> (r: bool)
        ensures
            r == (*self is QryInconsistan),
    {
        matches!(*self, TaosCode::QryInconsistan)
    }

    /// GRANT_EXPIRED: License expired
    pub fn grant_expired(&self) -> (r: bool)
        ensures
            r == (*self is GrantExpired),
    {
        matches!(*self, TaosCode::GrantExpired)
    }

    /// GRANT_DNODE_LIMITED: DNode creation limited by licence
    pub fn grant_dnode_limited(&self) -> (r: bool)
        ensures
            r == (*self is GrantDnodeLimited),
    {
        matches!(*self, TaosCode::GrantDnodeLimited)
    }

    /// GRANT_ACCT_LIMITED: Account creation limited by license
    pub fn grant_acct_limited(&self) -> (r: bool)
        ensures
            r == (*self is GrantAcctLimited),
    {
        matches!(*self, TaosCode::GrantAcctLimited)
    }

    /// GRANT_TIMESERIES_LIMITED: Table creation limited by license
    pub fn grant_timeseries_limited(&self) -> (r: bool)
        ensures
            r == (*self is GrantTimeseriesLimited),
    {
        matches!(*self, TaosCode::GrantTimeseriesLimited)
    }

    /// GRANT_DB_LIMITED: DB creation limited by license
    pub fn grant_db_limited(&self) -> (r: bool)
        ensures
            r == (*self is GrantDbLimited),
    {
        matches!(*self, TaosCode::GrantDbLimited)
    }

    /// GRANT_USER_LIMITED: User creation limited by license
    pub fn grant_user_limited(&self) -> (r: bool)
        ensures
            r == (*self is GrantUserLimited),
    {
        matches!(*self, TaosCode::GrantUserLimited)
    }

    /// GRANT_CONN_LIMITED: Conn creation limited by license
    pub fn grant_conn_limited(&self) -> (r: bool)
        ensures
            r == (*self is GrantConnLimited),
    {
        matches!(*self, TaosCode::GrantConnLimited)
    }

    /// GRANT_STREAM_LIMITED: Stream creation limited by license
    pub fn grant_stream_limited(&self) -> (r: bool)
        ensures
            r == (*self is GrantStreamLimited),
    {
        matches!(*self, TaosCode::GrantStreamLimited)
    }

    /// GRANT_SPEED_LIMITED: Write speed limited by license
    pub fn grant_speed_limited(&self) -> (r: bool)
        ensures
            r == (*self is GrantSpeedLimited),
    {
        matches!(*self, TaosCode::GrantSpeedLimited)
    }

    /// GRANT_STORAGE_LIMITED: Storage capacity limited by license
    pub fn grant_storage_limited(&self) -> (r: bool)
        ensures
            r == (*self is GrantStorageLimited),
    {
        matches!(*self, TaosCode::GrantStorageLimited)
    }

    /// GRANT_QUERYTIME_LIMITED: Query time limited by license
    pub fn grant_querytime_limited(&self) -> (r: bool)
        ensures
            r == (*self is GrantQuerytimeLimited),
    {
        matches!(*self, TaosCode::GrantQuerytimeLimited)
    }

    /// GRANT_CPU_LIMITED: CPU cores limited by license
    pub fn grant_cpu_limited(&self) -> (r: bool)
        ensures
            r == (*self is GrantCpuLimited),
    {
        matches!(*self, TaosCode::GrantCpuLimited)
    }

    /// SYN_INVALID_CONFIG: Invalid Sync Configuration
    pub fn syn_invalid_config(&self) -> (r: bool)
        ensures
            r == (*self is SynInvalidConfig),
    {
        matches!(*self, TaosCode::SynInvalidConfig)
    }

    /// SYN_NOT_ENABLED: Sync module not enabled
    pub fn syn_not_enabled(&self) -> (r: bool)
        ensures
            r == (*self is SynNotEnabled),
    {
        matches!(*self, TaosCode::SynNotEnabled)
    }

    /// SYN_INVALID_VERSION: Invalid Sync version
    pub fn syn_invalid_version(&self) -> (r: bool)
        ensures
            r == (*self is SynInvalidVersion),
    {
        matches!(*self, TaosCode::SynInvalidVersion)
    }

    /// SYN_CONFIRM_EXPIRED: Sync confirm expired
    pub fn syn_confirm_expired(&self) -> (r: bool)
        ensures
            r == (*self is SynConfirmExpired),
    {
        matches!(*self, TaosCode::SynConfirmExpired)
    }

    /// SYN_TOO_MANY_FWDINFO: Too many sync fwd infos
    pub fn syn_too_many_fwdinfo(&self) -> (r: bool)
        ensures
            r == (*self is SynTooManyFwdinfo),
    {
        matches!(*self, TaosCode::SynTooManyFwdinfo)
    }

    /// SYN_MISMATCHED_PROTOCOL: Mismatched protocol
    pub fn syn_mismatched_protocol(&self) -> (r: bool)
        ensures
            r == (*self is SynMismatchedProtocol),
    {
        matches!(*self, TaosCode::SynMismatchedProtocol)
    }

    /// SYN_MISMATCHED_CLUSTERID: Mismatched clusterId
    pub fn syn_mismatched_clusterid(&self) -> (r: bool)
        ensures
            r == (*self is SynMismatchedClusterid),
    {
        matches!(*self, TaosCode::SynMismatchedClusterid)
    }

    /// SYN_MISMATCHED_SIGNATURE: Mismatched signature
    pub fn syn_mismatched_signature(&self) -> (r: bool)
        ensures
            r == (*self is SynMismatchedSignature),
    {
        matches!(*self, TaosCode::SynMismatchedSignature)
    }

    /// SYN_INVALID_CHECKSUM: Invalid msg checksum
    pub fn syn_invalid_checksum(&self) -> (r: bool)
        ensures
            r == (*self is SynInvalidChecksum),
    {
        matches!(*self, TaosCode::SynInvalidChecksum)
    }

    /// SYN_INVALID_MSGLEN: Invalid msg length
    pub fn syn_invalid_msglen(&self) -> (r: bool)
        ensures
            r == (*self is SynInvalidMsglen),
    {
        matches!(*self, TaosCode::SynInvalidMsglen)
    }

    /// SYN_INVALID_MSGTYPE: Invalid msg type
    pub fn syn_invalid_msgtype(&self) -> (r: bool)
        ensures
            r == (*self is SynInvalidMsgtype),
    {
        matches!(*self, TaosCode::SynInvalidMsgtype)
    }

    /// WAL_APP_ERROR: Unexpected generic error in wal
    pub fn wal_app_error(&self) -> (r: bool)
        ensures
            r == (*self is WalAppError),
    {
        matches!(*self, TaosCode::WalAppError)
    }

    /// WAL_FILE_CORRUPTED: WAL file is corrupted
    pub fn wal_file_corrupted(&self) -> (r: bool)
        ensures
            r == (*self is WalFileCorrupted),
    {
        matches!(*self, TaosCode::WalFileCorrupted)
    }

    /// WAL_SIZE_LIMIT: WAL size exceeds limit
    pub fn wal_size_limit(&self) -> (r: bool)
        ensures
            r == (*self is WalSizeLimit),
    {
        matches!(*self, TaosCode::WalSizeLimit)
    }

    /// HTTP_SERVER_OFFLINE: http server is not onlin
    pub fn http_server_offline(&self) -> (r: bool)
        ensures
            r == (*self is HttpServerOffline),
    {
        matches!(*self, TaosCode::HttpServerOffline)
    }

    /// HTTP_UNSUPPORT_URL: url is not support
    pub fn http_unsupport_url(&self) -> (r: bool)
        ensures
            r == (*self is HttpUnsupportUrl),
    {
        matches!(*self, TaosCode::HttpUnsupportUrl)
    }

    /// HTTP_INVALID_URL: nvalid url format
    pub fn http_invalid_url(&self) -> (r: bool)
        ensures
            r == (*self is HttpInvalidUrl),
    {
        matches!(*self, TaosCode::HttpInvalidUrl)
    }

    /// HTTP_NO_ENOUGH_MEMORY: no enough memory
    pub fn http_no_enough_memory(&self) -> (r: bool)
        ensures
            r == (*self is HttpNoEnoughMemory),
    {
        matches!(*self, TaosCode::HttpNoEnoughMemory)
    }

    /// HTTP_REQUSET_TOO_BIG: request size is too big
    pub fn http_requset_too_big(&self) -> (r: bool)
        ensures
            r == (*self is HttpRequsetTooBig),
    {
        matches!(*self, TaosCode::HttpRequsetTooBig)
    }

    /// HTTP_NO_AUTH_INFO: no auth info input
    pub fn http_no_auth_info(&self) -> (r: bool)
        ensures
            r == (*self is HttpNoAuthInfo),
    {
        matches!(*self, TaosCode::HttpNoAuthInfo)
    }

    /// HTTP_NO_MSG_INPUT: request is empty
    pub fn http_no_msg_input(&self) -> (r: bool)
        ensures
            r == (*self is HttpNoMsgInput),
    {
        matches!(*self, TaosCode::HttpNoMsgInput)
    }

    /// HTTP_NO_SQL_INPUT: no sql input
    pub fn http_no_sql_input(&self) -> (r: bool)
        ensures
            r == (*self is HttpNoSqlInput),
    {
        matches!(*self, TaosCode::HttpNoSqlInput)
    }

    /// HTTP_NO_EXEC_USEDB: no need to execute use db cmd
    pub fn http_no_exec_usedb(&self) -> (r: bool)
        ensures
            r == (*self is HttpNoExecUsedb),
    {
        matches!(*self, TaosCode::HttpNoExecUsedb)
    }

    /// HTTP_SESSION_FULL: session list was full
    pub fn http_session_full(&self) -> (r: bool)
        ensures
            r == (*self is HttpSessionFull),
    {
        matches!(*self, TaosCode::HttpSessionFull)
    }

    /// HTTP_GEN_TAOSD_TOKEN_ERR: generate taosd token error
    pub fn http_gen_taosd_token_err(&self) -> (r: bool)
        ensures
            r == (*self is HttpGenTaosdTokenErr),
    {
        matches!(*self, TaosCode::HttpGenTaosdTokenErr)
    }

    /// HTTP_INVALID_MULTI_REQUEST: size of multi request is 0
    pub fn http_invalid_multi_request(&self) -> (r: bool)
        ensures
            r == (*self is HttpInvalidMultiRequest),
    {
        matches!(*self, TaosCode::HttpInvalidMultiRequest)
    }

    /// HTTP_CREATE_GZIP_FAILED: failed to create gzip
    pub fn http_create_gzip_failed(&self) -> (r: bool)
        ensures
            r == (*self is HttpCreateGzipFailed),
    {
        matches!(*self, TaosCode::HttpCreateGzipFailed)
    }

    /// HTTP_FINISH_GZIP_FAILED: failed to finish gzip
    pub fn http_finish_gzip_failed(&self) -> (r: bool)
        ensures
            r == (*self is HttpFinishGzipFailed),
    {
        matches!(*self, TaosCode::HttpFinishGzipFailed)
    }

    /// HTTP_LOGIN_FAILED: failed to login
    pub fn http_login_failed(&self) -> (r: bool)
        ensures
            r == (*self is HttpLoginFailed),
    {
        matches!(*self, TaosCode::HttpLoginFailed)
    }

    /// HTTP_INVALID_VERSION: invalid http version
    pub fn http_invalid_version(&self) -> (r: bool)
        ensures
            r == (*self is HttpInvalidVersion),
    {
        matches!(*self, TaosCode::HttpInvalidVersion)
    }

    /// HTTP_INVALID_CONTENT_LENGTH: invalid content length
    pub fn http_invalid_content_length(&self) -> (r: bool)
        ensures
            r == (*self is HttpInvalidContentLength),
    {
        matches!(*self, TaosCode::HttpInvalidContentLength)
    }

    /// HTTP_INVALID_AUTH_TYPE: invalid type of Authorization
    pub fn http_invalid_auth_type(&self) -> (r: bool)
        ensures
            r == (*self is HttpInvalidAuthType),
    {
        matches!(*self, TaosCode::HttpInvalidAuthType)
    }

    /// HTTP_INVALID_AUTH_FORMAT: invalid format of Authorization
    pub fn http_invalid_auth_format(&self) -> (r: bool)
        ensures
            r == (*self is HttpInvalidAuthFormat),
    {
        matches!(*self, TaosCode::HttpInvalidAuthFormat)
    }

    /// HTTP_INVALID_BASIC_AUTH: invalid basic Authorization
    pub fn http_invalid_basic_auth(&self) -> (r: bool)
        ensures
            r == (*self is HttpInvalidBasicAuth),
    {
        matches!(*self, TaosCode::HttpInvalidBasicAuth)
    }

    /// HTTP_INVALID_TAOSD_AUTH: invalid taosd Authorization
    pub fn http_invalid_taosd_auth(&self) -> (r: bool)
        ensures
            r == (*self is HttpInvalidTaosdAuth),
    {
        matches!(*self, TaosCode::HttpInvalidTaosdAuth)
    }

    /// HTTP_PARSE_METHOD_FAILED: failed to parse method
    pub fn http_parse_method_failed(&self) -> (r: bool)
        ensures
            r == (*self is HttpParseMethodFailed),
    {
        matches!(*self, TaosCode::HttpParseMethodFailed)
    }

    /// HTTP_PARSE_TARGET_FAILED: failed to parse target
    pub fn http_parse_target_failed(&self) -> (r: bool)
        ensures
            r == (*self is HttpParseTargetFailed),
    {
        matches!(*self, TaosCode::HttpParseTargetFailed)
    }

    /// HTTP_PARSE_VERSION_FAILED: failed to parse http version
    pub fn http_parse_version_failed(&self) -> (r: bool)
        ensures
            r == (*self is HttpParseVersionFailed),
    {
        matches!(*self, TaosCode::HttpParseVersionFailed)
    }

    /// HTTP_PARSE_SP_FAILED: failed to parse sp
    pub fn http_parse_sp_failed(&self) -> (r: bool)
        ensures
            r == (*self is HttpParseSpFailed),
    {
        matches!(*self, TaosCode::HttpParseSpFailed)
    }

    /// HTTP_PARSE_STATUS_FAILED: failed to parse status
    pub fn http_parse_status_failed(&self) -> (r: bool)
        ensures
            r == (*self is HttpParseStatusFailed),
    {
        matches!(*self, TaosCode::HttpParseStatusFailed)
    }

    /// HTTP_PARSE_PHRASE_FAILED: failed to parse phrase
    pub fn http_parse_phrase_failed(&self) -> (r: bool)
        ensures
            r == (*self is HttpParsePhraseFailed),
    {
        matches!(*self, TaosCode::HttpParsePhraseFailed)
    }

    /// HTTP_PARSE_CRLF_FAILED: failed to parse crlf
    pub fn http_parse_crlf_failed(&self) -> (r: bool)
        ensures
            r == (*self is HttpParseCrlfFailed),
    {
        matches!(*self, TaosCode::HttpParseCrlfFailed)
    }

    /// HTTP_PARSE_HEADER_FAILED: failed to parse header
    pub fn http_parse_header_failed(&self) -> (r: bool)
        ensures
            r == (*self is HttpParseHeaderFailed),
    {
        matches!(*self, TaosCode::HttpParseHeaderFailed)
    }

    /// HTTP_PARSE_HEADER_KEY_FAILED: failed to parse header key
    pub fn http_parse_header_key_failed(&self) -> (r: bool)
        ensures
            r == (*self is HttpParseHeaderKeyFailed),
    {
        matches!(*self, TaosCode::HttpParseHeaderKeyFailed)
    }

    /// HTTP_PARSE_HEADER_VAL_FAILED: failed to parse header val
    pub fn http_parse_header_val_failed(&self) -> (r: bool)
        ensures
            r == (*self is HttpParseHeaderValFailed),
    {
        matches!(*self, TaosCode::HttpParseHeaderValFailed)
    }

    /// HTTP_PARSE_CHUNK_SIZE_FAILED: failed to parse chunk size
    pub fn http_parse_chunk_size_failed(&self) -> (r: bool)
        ensures
            r == (*self is HttpParseChunkSizeFailed),
    {
        matches!(*self, TaosCode::HttpParseChunkSizeFailed)
    }

    /// HTTP_PARSE_CHUNK_FAILED: failed to parse chunk
    pub fn http_parse_chunk_failed(&self) -> (r: bool)
        ensures
            r == (*self is HttpParseChunkFailed),
    {
        matches!(*self, TaosCode::HttpParseChunkFailed)
    }

    /// HTTP_PARSE_END_FAILED: failed to parse end section
    pub fn http_parse_end_failed(&self) -> (r: bool)
        ensures
            r == (*self is HttpParseEndFailed),
    {
        matches!(*self, TaosCode::HttpParseEndFailed)
    }

    /// HTTP_PARSE_INVALID_STATE: invalid parse state
    pub fn http_parse_invalid_state(&self) -> (r: bool)
        ensures
            r == (*self is HttpParseInvalidState),
    {
        matches!(*self, TaosCode::HttpParseInvalidState)
    }

    /// HTTP_PARSE_ERROR_STATE: failed to parse error section
    pub fn http_parse_error_state(&self) -> (r: bool)
        ensures
            r == (*self is HttpParseErrorState),
    {
        matches!(*self, TaosCode::HttpParseErrorState)
    }

    /// HTTP_GC_QUERY_NULL: query size is 0
    pub fn http_gc_query_null(&self) -> (r: bool)
        ensures
            r == (*self is HttpGcQueryNull),
    {
        matches!(*self, TaosCode::HttpGcQueryNull)
    }

    /// HTTP_GC_QUERY_SIZE: query size can not more than 100
    pub fn http_gc_query_size(&self) -> (r: bool)
        ensures
            r == (*self is HttpGcQuerySize),
    {
        matches!(*self, TaosCode::HttpGcQuerySize)
    }

    /// HTTP_GC_REQ_PARSE_ERROR: parse grafana json error
    pub fn http_gc_req_parse_error(&self) -> (r: bool)
        ensures
            r == (*self is HttpGcReqParseError),
    {
        matches!(*self, TaosCode::HttpGcReqParseError)
    }

    /// HTTP_TG_DB_NOT_INPUT: database name can not be null
    pub fn http_tg_db_not_input(&self) -> (r: bool)
        ensures
            r == (*self is HttpTgDbNotInput),
    {
        matches!(*self, TaosCode::HttpTgDbNotInput)
    }

    /// HTTP_TG_DB_TOO_LONG: database name too long
    pub fn http_tg_db_too_long(&self) -> (r: bool)
        ensures
            r == (*self is HttpTgDbTooLong),
    {
        matches!(*self, TaosCode::HttpTgDbTooLong)
    }

    /// HTTP_TG_INVALID_JSON: invalid telegraf json fromat
    pub fn http_tg_invalid_json(&self) -> (r: bool)
        ensures
            r == (*self is HttpTgInvalidJson),
    {
        matches!(*self, TaosCode::HttpTgInvalidJson)
    }

    /// HTTP_TG_METRICS_NULL: metrics size is 0
    pub fn http_tg_metrics_null(&self) -> (r: bool)
        ensures
            r == (*self is HttpTgMetricsNull),
    {
        matches!(*self, TaosCode::HttpTgMetricsNull)
    }

    /// HTTP_TG_METRICS_SIZE: metrics size can not more than 1K
    pub fn http_tg_metrics_size(&self) -> (r: bool)
        ensures
            r == (*self is HttpTgMetricsSize),
    {
        matches!(*self, TaosCode::HttpTgMetricsSize)
    }

    /// HTTP_TG_METRIC_NULL: metric name not find
    pub fn http_tg_metric_null(&self) -> (r: bool)
        ensures
            r == (*self is HttpTgMetricNull),
    {
        matches!(*self, TaosCode::HttpTgMetricNull)
    }

    /// HTTP_TG_METRIC_TYPE: metric name type should be string
    pub fn http_tg_metric_type(&self) -> (r: bool)
        ensures
            r == (*self is HttpTgMetricType),
    {
        matches!(*self, TaosCode::HttpTgMetricType)
    }

    /// HTTP_TG_METRIC_NAME_NULL: metric name length is 0
    pub fn http_tg_metric_name_null(&self) -> (r: bool)
        ensures
            r == (*self is HttpTgMetricNameNull),
    {
        matches!(*self, TaosCode::HttpTgMetricNameNull)
    }

    /// HTTP_TG_METRIC_NAME_LONG: metric name length too long
    pub fn http_tg_metric_name_long(&self) -> (r: bool)
        ensures
            r == (*self is HttpTgMetricNameLong),
    {
        matches!(*self, TaosCode::HttpTgMetricNameLong)
    }

    /// HTTP_TG_TIMESTAMP_NULL: timestamp not find
    pub fn http_tg_timestamp_null(&self) -> (r: bool)
        ensures
            r == (*self is HttpTgTimestampNull),
    {
        matches!(*self, TaosCode::HttpTgTimestampNull)
    }

    /// HTTP_TG_TIMESTAMP_TYPE: timestamp type should be integer
    pub fn http_tg_timestamp_type(&self) -> (r: bool)
        ensures
            r == (*self is HttpTgTimestampType),
    {
        matches!(*self, TaosCode::HttpTgTimestampType)
    }

    /// HTTP_TG_TIMESTAMP_VAL_NULL: timestamp value smaller than 0
    pub fn http_tg_timestamp_val_null(&self) -> (r: bool)
        ensures
            r == (*self is HttpTgTimestampValNull),
    {
        matches!(*self, TaosCode::HttpTgTimestampValNull)
    }

    /// HTTP_TG_TAGS_NULL: tags not find
    pub fn http_tg_tags_null(&self) -> (r: bool)
        ensures
            r == (*self is HttpTgTagsNull),
    {
        matches!(*self, TaosCode::HttpTgTagsNull)
    }

    /// HTTP_TG_TAGS_SIZE_0: tags size is 0
    pub fn http_tg_tags_size_0(&self) -> (r: bool)
        ensures
            r == (*self is HttpTgTagsSize0),
    {
        matches!(*self, TaosCode::HttpTgTagsSize0)
    }

    /// HTTP_TG_TAGS_SIZE_LONG: tags size too long
    pub fn http_tg_tags_size_long(&self) -> (r: bool)
        ensures
            r == (*self is HttpTgTagsSizeLong),
    {
        matches!(*self, TaosCode::HttpTgTagsSizeLong)
    }

    /// HTTP_TG_TAG_NULL: tag is null
    pub fn http_tg_tag_null(&self) -> (r: bool)
        ensures
            r == (*self is HttpTgTagNull),
    {
        matches!(*self, TaosCode::HttpTgTagNull)
    }

    /// HTTP_TG_TAG_NAME_NULL: tag name is null
    pub fn http_tg_tag_name_null(&self) -> (r: bool)
        ensures
            r == (*self is HttpTgTagNameNull),
    {
        matches!(*self, TaosCode::HttpTgTagNameNull)
    }

    /// HTTP_TG_TAG_NAME_SIZE: tag name length too long
    pub fn http_tg_tag_name_size(&self) -> (r: bool)
        ensures
            r == (*self is HttpTgTagNameSize),
    {
        matches!(*self, TaosCode::HttpTgTagNameSize)
    }

    /// HTTP_TG_TAG_VALUE_TYPE: tag value type should be number or string
    pub fn http_tg_tag_value_type(&self) -> (r: bool)
        ensures
            r == (*self is HttpTgTagValueType),
    {
        matches!(*self, TaosCode::HttpTgTagValueType)
    }

    /// HTTP_TG_TAG_VALUE_NULL: tag value is null
    pub fn http_tg_tag_value_null(&self) -> (r: bool)
        ensures
            r == (*self is HttpTgTagValueNull),
    {
        matches!(*self, TaosCode::HttpTgTagValueNull)
    }

    /// HTTP_TG_TABLE_NULL: table is null
    pub fn http_tg_table_null(&self) -> (r: bool)
        ensures
            r == (*self is HttpTgTableNull),
    {
        matches!(*self, TaosCode::HttpTgTableNull)
    }

    /// HTTP_TG_TABLE_SIZE: table name length too long
    pub fn http_tg_table_size(&self) -> (r: bool)
        ensures
            r == (*self is HttpTgTableSize),
    {
        matches!(*self, TaosCode::HttpTgTableSize)
    }

    /// HTTP_TG_FIELDS_NULL: fields not find
    pub fn http_tg_fields_null(&self) -> (r: bool)
        ensures
            r == (*self is HttpTgFieldsNull),
    {
        matches!(*self, TaosCode::HttpTgFieldsNull)
    }

    /// HTTP_TG_FIELDS_SIZE_0: fields size is 0
    pub fn http_tg_fields_size_0(&self) -> (r: bool)
        ensures
            r == (*self is HttpTgFieldsSize0),
    {
        matches!(*self, TaosCode::HttpTgFieldsSize0)
    }

    /// HTTP_TG_FIELDS_SIZE_LONG: fields size too long
    pub fn http_tg_fields_size_long(&self) -> (r: bool)
        ensures
            r == (*self is HttpTgFieldsSizeLong),
    {
        matches!(*self, TaosCode::HttpTgFieldsSizeLong)
    }

    /// HTTP_TG_FIELD_NULL: field is null
    pub fn http_tg_field_null(&self) -> (r: bool)
        ensures
            r == (*self is HttpTgFieldNull),
    {
        matches!(*self, TaosCode::HttpTgFieldNull)
    }

    /// HTTP_TG_FIELD_NAME_NULL: field name is null
    pub fn http_tg_field_name_null(&self) -> (r: bool)
        ensures
            r == (*self is HttpTgFieldNameNull),
    {
        matches!(*self, TaosCode::HttpTgFieldNameNull)
    }

    /// HTTP_TG_FIELD_NAME_SIZE: field name length too long
    pub fn http_tg_field_name_size(&self) -> (r: bool)
        ensures
            r == (*self is HttpTgFieldNameSize),
    {
        matches!(*self, TaosCode::HttpTgFieldNameSize)
    }

    /// HTTP_TG_FIELD_VALUE_TYPE: field value type should be number or string
    pub fn http_tg_field_value_type(&self) -> (r: bool)
        ensures
            r == (*self is HttpTgFieldValueType),
    {
        matches!(*self, TaosCode::HttpTgFieldValueType)
    }

    /// HTTP_TG_FIELD_VALUE_NULL: field value is null
    pub fn http_tg_field_value_null(&self) -> (r: bool)
        ensures
            r == (*self is HttpTgFieldValueNull),
    {
        matches!(*self, TaosCode::HttpTgFieldValueNull)
    }

    /// HTTP_TG_HOST_NOT_STRING: host type should be string
    pub fn http_tg_host_not_string(&self) -> (r: bool)
        ensures
            r == (*self is HttpTgHostNotString),
    {
        matches!(*self, TaosCode::HttpTgHostNotString)
    }

    /// HTTP_TG_STABLE_NOT_EXIST: stable not exist
    pub fn http_tg_stable_not_exist(&self) -> (r: bool)
        ensures
            r == (*self is HttpTgStableNotExist),
    {
        matches!(*self, TaosCode::HttpTgStableNotExist)
    }

    /// HTTP_OP_DB_NOT_INPUT: database name can not be null
    pub fn http_op_db_not_input(&self) -> (r: bool)
        ensures
            r == (*self is HttpOpDbNotInput),
    {
        matches!(*self, TaosCode::HttpOpDbNotInput)
    }

    /// HTTP_OP_DB_TOO_LONG: database name too long
    pub fn http_op_db_too_long(&self) -> (r: bool)
        ensures
            r == (*self is HttpOpDbTooLong),
    {
        matches!(*self, TaosCode::HttpOpDbTooLong)
    }

    /// HTTP_OP_INVALID_JSON: invalid opentsdb json fromat
    pub fn http_op_invalid_json(&self) -> (r: bool)
        ensures
            r == (*self is HttpOpInvalidJson),
    {
        matches!(*self, TaosCode::HttpOpInvalidJson)
    }

    /// HTTP_OP_METRICS_NULL: metrics size is 0
    pub fn http_op_metrics_null(&self) -> (r: bool)
        ensures
            r == (*self is HttpOpMetricsNull),
    {
        matches!(*self, TaosCode::HttpOpMetricsNull)
    }

    /// HTTP_OP_METRICS_SIZE: metrics size can not more than 10K
    pub fn http_op_metrics_size(&self) -> (r: bool)
        ensures
            r == (*self is HttpOpMetricsSize),
    {
        matches!(*self, TaosCode::HttpOpMetricsSize)
    }

    /// HTTP_OP_METRIC_NULL: metric name not find
    pub fn http_op_metric_null(&self) -> (r: bool)
        ensures
            r == (*self is HttpOpMetricNull),
    {
        matches!(*self, TaosCode::HttpOpMetricNull)
    }

    /// HTTP_OP_METRIC_TYPE: metric name type should be string
    pub fn http_op_metric_type(&self) -> (r: bool)
        ensures
            r == (*self is HttpOpMetricType),
    {
        matches!(*self, TaosCode::HttpOpMetricType)
    }

    /// HTTP_OP_METRIC_NAME_NULL: metric name length is 0
    pub fn http_op_metric_name_null(&self) -> (r: bool)
        ensures
            r == (*self is HttpOpMetricNameNull),
    {
        matches!(*self, TaosCode::HttpOpMetricNameNull)
    }

    /// HTTP_OP_METRIC_NAME_LONG: metric name length can not more than 22
    pub fn http_op_metric_name_long(&self) -> (r: bool)
        ensures
            r == (*self is HttpOpMetricNameLong),
    {
        matches!(*self, TaosCode::HttpOpMetricNameLong)
    }

    /// HTTP_OP_TIMESTAMP_NULL: timestamp not find
    pub fn http_op_timestamp_null(&self) -> (r: bool)
        ensures
            r == (*self is HttpOpTimestampNull),
    {
        matches!(*self, TaosCode::HttpOpTimestampNull)
    }

    /// HTTP_OP_TIMESTAMP_TYPE: timestamp type should be integer
    pub fn http_op_timestamp_type(&self) -> (r: bool)
        ensures
            r == (*self is HttpOpTimestampType),
    {
        matches!(*self, TaosCode::HttpOpTimestampType)
    }

    /// HTTP_OP_TIMESTAMP_VAL_NULL: timestamp value smaller than 0
    pub fn http_op_timestamp_val_null(&self) -> (r: bool)
        ensures
            r == (*self is HttpOpTimestampValNull),
    {
        matches!(*self, TaosCode::HttpOpTimestampValNull)
    }

    /// HTTP_OP_TAGS_NULL: tags not find
    pub fn http_op_tags_null(&self) -> (r: bool)
        ensures
            r == (*self is HttpOpTagsNull),
    {
        matches!(*self, TaosCode::HttpOpTagsNull)
    }

    /// HTTP_OP_TAGS_SIZE_0: tags size is 0
    pub fn http_op_tags_size_0(&self) -> (r: bool)
        ensures
            r == (*self is HttpOpTagsSize0),
    {
        matches!(*self, TaosCode::HttpOpTagsSize0)
    }

    /// HTTP_OP_TAGS_SIZE_LONG: tags size too long
    pub fn http_op_tags_size_long(&self) -> (r: bool)
        ensures
            r == (*self is HttpOpTagsSizeLong),
    {
        matches!(*self, TaosCode::HttpOpTagsSizeLong)
    }

    /// HTTP_OP_TAG_NULL: tag is null
    pub fn http_op_tag_null(&self) -> (r: bool)
        ensures
            r == (*self is HttpOpTagNull),
    {
        matches!(*self, TaosCode::HttpOpTagNull)
    }

    /// HTTP_OP_TAG_NAME_NULL: tag name is null
    pub fn http_op_tag_name_null(&self) -> (r: bool)
        ensures
            r == (*self is HttpOpTagNameNull),
    {
        matches!(*self, TaosCode::HttpOpTagNameNull)
    }

    /// HTTP_OP_TAG_NAME_SIZE: tag name length too long
    pub fn http_op_tag_name_size(&self) -> (r: bool)
        ensures
            r == (*self is HttpOpTagNameSize),
    {
        matches!(*self, TaosCode::HttpOpTagNameSize)
    }

    /// HTTP_OP_TAG_VALUE_TYPE: tag value type should be boolean number or string
    pub fn http_op_tag_value_type(&self) -> (r: bool)
        ensures
            r == (*self is HttpOpTagValueType),
    {
        matches!(*self, TaosCode::HttpOpTagValueType)
    }

    /// HTTP_OP_TAG_VALUE_NULL: tag value is null
    pub fn http_op_tag_value_null(&self) -> (r: bool)
        ensures
            r == (*self is HttpOpTagValueNull),
    {
        matches!(*self, TaosCode::HttpOpTagValueNull)
    }

    /// HTTP_OP_TAG_VALUE_TOO_LONG: tag value can not more than 64
    pub fn http_op_tag_value_too_long(&self) -> (r: bool)
        ensures
            r == (*self is HttpOpTagValueTooLong),
    {
        matches!(*self, TaosCode::HttpOpTagValueTooLong)
    }

    /// HTTP_OP_VALUE_NULL: value not find
    pub fn http_op_value_null(&self) -> (r: bool)
        ensures
            r == (*self is HttpOpValueNull),
    {
        matches!(*self, TaosCode::HttpOpValueNull)
    }

    /// HTTP_OP_VALUE_TYPE: value type should be boolean number or string
    pub fn http_op_value_type(&self) -> (r: bool)
        ensures
            r == (*self is HttpOpValueType),
    {
        matches!(*self, TaosCode::HttpOpValueType)
    }

    /// ODBC_OOM: out of memory
    pub fn odbc_oom(&self) -> (r: bool)
        ensures
            r == (*self is OdbcOom),
    {
        matches!(*self, TaosCode::OdbcOom)
    }

    /// ODBC_CONV_CHAR_NOT_NUM: convertion not a valid literal input
    pub fn odbc_conv_char_not_num(&self) -> (r: bool)
        ensures
            r == (*self is OdbcConvCharNotNum),
    {
        matches!(*self, TaosCode::OdbcConvCharNotNum)
    }

    /// ODBC_CONV_UNDEF: convertion undefined
    pub fn odbc_conv_undef(&self) -> (r: bool)
        ensures
            r == (*self is OdbcConvUndef),
    {
        matches!(*self, TaosCode::OdbcConvUndef)
    }

    /// ODBC_CONV_TRUNC_FRAC: convertion fractional truncated
    pub fn odbc_conv_trunc_frac(&self) -> (r: bool)
        ensures
            r == (*self is OdbcConvTruncFrac),
    {
        matches!(*self, TaosCode::OdbcConvTruncFrac)
    }

    /// ODBC_CONV_TRUNC: convertion truncated
    pub fn odbc_conv_trunc(&self) -> (r: bool)
        ensures
            r == (*self is OdbcConvTrunc),
    {
        matches!(*self, TaosCode::OdbcConvTrunc)
    }

    /// ODBC_CONV_NOT_SUPPORT: convertion not supported
    pub fn odbc_conv_not_support(&self) -> (r: bool)
        ensures
            r == (*self is OdbcConvNotSupport),
    {
        matches!(*self, TaosCode::OdbcConvNotSupport)
    }

    /// ODBC_CONV_OOR: convertion numeric value out of range
    pub fn odbc_conv_oor(&self) -> (r: bool)
        ensures
            r == (*self is OdbcConvOor),
    {
        matches!(*self, TaosCode::OdbcConvOor)
    }

    /// ODBC_OUT_OF_RANGE: out of range
    pub fn odbc_out_of_range(&self) -> (r: bool)
        ensures
            r == (*self is OdbcOutOfRange),
    {
        matches!(*self, TaosCode::OdbcOutOfRange)
    }

    /// ODBC_NOT_SUPPORT: not supported yet
    pub fn odbc_not_support(&self) -> (r: bool)
        ensures
            r == (*self is OdbcNotSupport),
    {
        matches!(*self, TaosCode::OdbcNotSupport)
    }

    /// ODBC_INVALID_HANDLE: invalid handle
    pub fn odbc_invalid_handle(&self) -> (r: bool)
        ensures
            r == (*self is OdbcInvalidHandle),
    {
        matches!(*self, TaosCode::OdbcInvalidHandle)
    }

    /// ODBC_NO_RESULT: no result set
    pub fn odbc_no_result(&self) -> (r: bool)
        ensures
            r == (*self is OdbcNoResult),
    {
        matches!(*self, TaosCode::OdbcNoResult)
    }

    /// ODBC_NO_FIELDS: no fields returned
    pub fn odbc_no_fields(&self) -> (r: bool)
        ensures
            r == (*self is OdbcNoFields),
    {
        matches!(*self, TaosCode::OdbcNoFields)
    }

    /// ODBC_INVALID_CURSOR: invalid cursor
    pub fn odbc_invalid_cursor(&self) -> (r: bool)
        ensures
            r == (*self is OdbcInvalidCursor),
    {
        matches!(*self, TaosCode::OdbcInvalidCursor)
    }

    /// ODBC_STATEMENT_NOT_READY: statement not ready
    pub fn odbc_statement_not_ready(&self) -> (r: bool)
        ensures
            r == (*self is OdbcStatementNotReady),
    {
        matches!(*self, TaosCode::OdbcStatementNotReady)
    }

    /// ODBC_CONNECTION_BUSY: connection still busy
    pub fn odbc_connection_busy(&self) -> (r: bool)
        ensures
            r == (*self is OdbcConnectionBusy),
    {
        matches!(*self, TaosCode::OdbcConnectionBusy)
    }

    /// ODBC_BAD_CONNSTR: bad connection string
    pub fn odbc_bad_connstr(&self) -> (r: bool)
        ensures
            r == (*self is OdbcBadConnstr),
    {
        matches!(*self, TaosCode::OdbcBadConnstr)
    }

    /// ODBC_BAD_ARG: bad argument
    pub fn odbc_bad_arg(&self) -> (r: bool)
        ensures
            r == (*self is OdbcBadArg),
    {
        matches!(*self, TaosCode::OdbcBadArg)
    }

    /// ODBC_CONV_NOT_VALID_TS: not a valid timestamp
    pub fn odbc_conv_not_valid_ts(&self) -> (r: bool)
        ensures
            r == (*self is OdbcConvNotValidTs),
    {
        matches!(*self, TaosCode::OdbcConvNotValidTs)
    }

    /// ODBC_CONV_SRC_TOO_LARGE: src too large
    pub fn odbc_conv_src_too_large(&self) -> (r: bool)
        ensures
            r == (*self is OdbcConvSrcTooLarge),
    {
        matches!(*self, TaosCode::OdbcConvSrcTooLarge)
    }

    /// ODBC_CONV_SRC_BAD_SEQ: src bad sequence
    pub fn odbc_conv_src_bad_seq(&self) -> (r: bool)
        ensures
            r == (*self is OdbcConvSrcBadSeq),
    {
        matches!(*self, TaosCode::OdbcConvSrcBadSeq)
    }

    /// ODBC_CONV_SRC_INCOMPLETE: src incomplete
    pub fn odbc_conv_src_incomplete(&self) -> (r: bool)
        ensures
            r == (*self is OdbcConvSrcIncomplete),
    {
        matches!(*self, TaosCode::OdbcConvSrcIncomplete)
    }

    /// ODBC_CONV_SRC_GENERAL: src general
    pub fn odbc_conv_src_general(&self) -> (r: bool)
        ensures
            r == (*self is OdbcConvSrcGeneral),
    {
        matches!(*self, TaosCode::OdbcConvSrcGeneral)
    }

    /// FS_OUT_OF_MEMORY: tfs out of memory
    pub fn fs_out_of_memory(&self) -> (r: bool)
        ensures
            r == (*self is FsOutOfMemory),
    {
        matches!(*self, TaosCode::FsOutOfMemory)
    }

    /// FS_INVLD_CFG: tfs invalid mount config
    pub fn fs_invld_cfg(&self) -> (r: bool)
        ensures
            r == (*self is FsInvldCfg),
    {
        matches!(*self, TaosCode::FsInvldCfg)
    }

    /// FS_TOO_MANY_MOUNT: tfs too many mount
    pub fn fs_too_many_mount(&self) -> (r: bool)
        ensures
            r == (*self is FsTooManyMount),
    {
        matches!(*self, TaosCode::FsTooManyMount)
    }

    /// FS_DUP_PRIMARY: tfs duplicate primary mount
    pub fn fs_dup_primary(&self) -> (r: bool)
        ensures
            r == (*self is FsDupPrimary),
    {
        matches!(*self, TaosCode::FsDupPrimary)
    }

    /// FS_NO_PRIMARY_DISK: tfs no primary mount
    pub fn fs_no_primary_disk(&self) -> (r: bool)
        ensures
            r == (*self is FsNoPrimaryDisk),
    {
        matches!(*self, TaosCode::FsNoPrimaryDisk)
    }

    /// FS_NO_MOUNT_AT_TIER: tfs no mount at tier
    pub fn fs_no_mount_at_tier(&self) -> (r: bool)
        ensures
            r == (*self is FsNoMountAtTier),
    {
        matches!(*self, TaosCode::FsNoMountAtTier)
    }

    /// FS_FILE_ALREADY_EXISTS: tfs file already exists
    pub fn fs_file_already_exists(&self) -> (r: bool)
        ensures
            r == (*self is FsFileAlreadyExists),
    {
        matches!(*self, TaosCode::FsFileAlreadyExists)
    }

    /// FS_INVLD_LEVEL: tfs invalid level
    pub fn fs_invld_level(&self) -> (r: bool)
        ensures
            r == (*self is FsInvldLevel),
    {
        matches!(*self, TaosCode::FsInvldLevel)
    }

    /// FS_NO_VALID_DISK: tfs no valid disk
    pub fn fs_no_valid_disk(&self) -> (r: bool)
        ensures
            r == (*self is FsNoValidDisk),
    {
        matches!(*self, TaosCode::FsNoValidDisk)
    }

}


/// The low 16 bits of an engine status, which carry the error code; the
/// high bits carry flags that the classification ignores.
pub open spec fn spec_low16(status: i32) -> u32 {
    (status as u32) & 0xffff
}

/// The named code an engine status classifies to.
pub open spec fn spec_classify(status: i32) -> TaosCode {
    TaosCode::spec_from_value(spec_low16(status) as int)
}

/// Classify a raw engine status: its low 16 bits name the code.
pub fn classify_status(status: i32) -> (r: TaosCode)
    ensures
        r == spec_classify(status),
{
    let low: u32 = #[verifier::truncate] (status as u32) & 0xffff;
    proof {
        assert(((status as u32) & 0xffff) <= 0xffff) by (bit_vector);
    }
    TaosCode::from_value(low as i32)
}

/// The zero status is the distinguished success value: it classifies to
/// `Success`, and every status whose low 16 bits are not zero does not.
pub proof fn lemma_status_success(status: i32)
    ensures
        status == 0 ==> spec_classify(status) == TaosCode::Success,
        spec_low16(status) != 0 ==> spec_classify(status) != TaosCode::Success,
{
    assert(((0i32 as u32) & 0xffff) == 0) by (bit_vector);
    assert(((status as u32) & 0xffff) <= 0xffff) by (bit_vector);
    if spec_low16(status) != 0 {
        assert(TaosCode::spec_from_value(spec_low16(status) as int) != TaosCode::Success);
    }
}

/// A typed engine failure: the classification of the reported status and
/// the accompanying detail message.
#[derive(Debug, Clone, PartialEq, Eq)]
pub struct TaosError {
    pub code: TaosCode,
    pub err: String,
}

impl TaosError {
    /// Display as `[code] message`, with the code's numeric value in
    /// decimal.
    pub fn to_text(&self) -> (r: String)
        ensures
            r@ == "["@ + crate::text::spec_decimal(self.code.spec_value()) + "] "@ + self.err@,
    {
        let mut s = String::from_str("[");
        s.append(crate::text::decimal_i64(self.code.value() as i64).as_str());
        s.append("] ");
        s.append(self.err.as_str());
        proof {
            assert(crate::text::spec_decimal_signed(self.code.spec_value())
                == crate::text::spec_decimal(self.code.spec_value()));
        }
        s
    }
}

/// Any failure this library surfaces: an engine-reported error, or a
/// connection handle that could not be established.
#[derive(Debug, Clone, PartialEq, Eq)]
pub enum Error {
    RawTaosError(TaosError),
    ConnectionInvalid,
}

impl core::convert::From<TaosError> for Error {
    fn from(e: TaosError) -> (r: Error) {
        Error::RawTaosError(e)
    }
}

impl vstd::std_specs::convert::FromSpecImpl<TaosError> for Error {
    open spec fn obeys_from_spec() -> bool {
        true
    }

    open spec fn from_spec(e: TaosError) -> Error {
        Error::RawTaosError(e)
    }
}

/// Map a raw engine status and its detail message to a result: the
/// distinguished success classification is `Ok`, everything else carries
/// the (code, message) pair.
pub fn result_from_status(status: i32, message: String) -> (r: Result<(), TaosError>)
    ensures
        r is Ok <==> spec_classify(status) == TaosCode::Success,
        r matches Err(e) ==> e.code == spec_classify(status) && e.err@ == message@,
{
    let code = classify_status(status);
    if code.success() {
        Ok(())
    } else {
        Err(TaosError { code, err: message })
    }
}

/// Map a raw statement status and the statement's error text, which may be
/// absent, to a result; an absent text becomes `unknown`, as the
/// statement interface reports it.
pub fn stmt_result_from_status(status: i32, message: Option<String>) -> (r: Result<
    (),
    TaosError,
>)
    ensures
        r is Ok <==> spec_classify(status) == TaosCode::Success,
        r matches Err(e) ==> e.code == spec_classify(status) && e.err@ == (match message {
            Some(m) => m@,
            None => "unknown"@,
        }),
{
    let code = classify_status(status);
    if code.success() {
        Ok(())
    } else {
        match message {
            Some(m) => Err(TaosError { code, err: m }),
            None => Err(TaosError { code, err: String::from_str("unknown") }),
        }
    }
}

} // verus!
