use vstd::prelude::*;

verus! {

/// Error status codes of the native layer (all of them negative).
#[derive(Debug, Clone, Copy, PartialEq, Eq, Structural, PartialOrd, Ord, Hash)]
pub enum ErrorCode {
    /// VI_ERROR_SYSTEM_ERROR: Unknown system error (miscellaneous error).
    ErrorSystemError,
    /// VI_ERROR_INV_OBJECT: The given session or object reference is invalid.
    ErrorInvObject,
    /// VI_ERROR_RSRC_LOCKED: Specified type of lock cannot be obtained or specified operation cannot be performed, because the resource is locked.
    ErrorRsrcLocked,
    /// VI_ERROR_INV_EXPR: Invalid expression specified for search.
    ErrorInvExpr,
    /// VI_ERROR_RSRC_NFOUND: Insufficient location information or the device or resource is not present in the system.
    ErrorRsrcNfound,
    /// VI_ERROR_INV_RSRC_NAME: Invalid resource reference specified. Parsing error.
    ErrorInvRsrcName,
    /// VI_ERROR_INV_ACC_MODE: Invalid access mode.
    ErrorInvAccMode,
    /// VI_ERROR_TMO: Timeout expired before operation completed.
    ErrorTmo,
    /// VI_ERROR_CLOSING_FAILED: Unable to deallocate the previously allocated data structures corresponding to this session or object reference.
    ErrorClosingFailed,
    /// VI_ERROR_INV_DEGREE: Specified degree is invalid.
    ErrorInvDegree,
    /// VI_ERROR_INV_JOB_ID: Specified job identifier is invalid.
    ErrorInvJobId,
    /// VI_ERROR_NSUP_ATTR: The specified attribute is not defined or supported by the referenced session, event, or find list.
    ErrorNsupAttr,
    /// VI_ERROR_NSUP_ATTR_STATE: The specified state of the attribute is not valid, or is not supported as defined by the session, event, or find list.
    ErrorNsupAttrState,
    /// VI_ERROR_ATTR_READONLY: The specified attribute is Read Only.
    ErrorAttrReadonly,
    /// VI_ERROR_INV_LOCK_TYPE: The specified type of lock is not supported by this resource.
    ErrorInvLockType,
    /// VI_ERROR_INV_ACCESS_KEY: The access key to the resource associated with this session is invalid.
    ErrorInvAccessKey,
    /// VI_ERROR_INV_EVENT: Specified event type is not supported by the resource.
    ErrorInvEvent,
    /// VI_ERROR_INV_MECH: Invalid mechanism specified.
    ErrorInvMech,
    /// VI_ERROR_HNDLR_NINSTALLED: A handler is not currently installed for the specified event.
    ErrorHndlrNinstalled,
    /// VI_ERROR_INV_HNDLR_REF: The given handler reference is invalid.
    ErrorInvHndlrRef,
    /// VI_ERROR_INV_CONTEXT: Specified event context is invalid.
    ErrorInvContext,
    /// VI_ERROR_QUEUE_OVERFLOW: The event queue for the specified type has overflowed (usually due to previous events not having been closed).
    ErrorQueueOverflow,
    /// VI_ERROR_NENABLED: The session must be enabled for events of the specified type in order to receive them.
    ErrorNenabled,
    /// VI_ERROR_ABORT: The operation was aborted.
    ErrorAbort,
    /// VI_ERROR_RAW_WR_PROT_VIOL: Violation of raw write protocol occurred during transfer.
    ErrorRawWrProtViol,
    /// VI_ERROR_RAW_RD_PROT_VIOL: Violation of raw read protocol occurred during transfer.
    ErrorRawRdProtViol,
    /// VI_ERROR_OUTP_PROT_VIOL: Device reported an output protocol error during transfer.
    ErrorOutpProtViol,
    /// VI_ERROR_INP_PROT_VIOL: Device reported an input protocol error during transfer.
    ErrorInpProtViol,
    /// VI_ERROR_BERR: Bus error occurred during transfer.
    ErrorBerr,
    /// VI_ERROR_IN_PROGRESS: Unable to queue the asynchronous operation because there is already an operation in progress.
    ErrorInProgress,
    /// VI_ERROR_INV_SETUP: Unable to start operation because setup is invalid (due to attributes being set to an inconsistent state).
    ErrorInvSetup,
    /// VI_ERROR_QUEUE_ERROR: Unable to queue asynchronous operation (usually due to the I/O completion event not being enabled or insufficient space in the session's queue).
    ErrorQueueError,
    /// VI_ERROR_ALLOC: Insufficient system resources to perform necessary memory allocation.
    ErrorAlloc,
    /// VI_ERROR_INV_MASK: Invalid buffer mask specified.
    ErrorInvMask,
    /// VI_ERROR_IO: Could not perform operation because of I/O error.
    ErrorIo,
    /// VI_ERROR_INV_FMT: A format specifier in the format string is invalid.
    ErrorInvFmt,
    /// VI_ERROR_NSUP_FMT: A format specifier in the format string is not supported.
    ErrorNsupFmt,
    /// VI_ERROR_LINE_IN_USE: The specified trigger line is currently in use.
    ErrorLineInUse,
    /// VI_ERROR_NSUP_MODE: The specified mode is not supported by this VISA implementation.
    ErrorNsupMode,
    /// VI_ERROR_SRQ_NOCCURRED: Service request has not been received for the session.
    ErrorSrqNoccurred,
    /// VI_ERROR_INV_SPACE: Invalid address space specified.
    ErrorInvSpace,
    /// VI_ERROR_INV_OFFSET: Invalid offset specified.
    ErrorInvOffset,
    /// VI_ERROR_INV_WIDTH: Invalid source or destination width specified.
    ErrorInvWidth,
    /// VI_ERROR_NSUP_OFFSET: Specified offset is not accessible from this hardware.
    ErrorNsupOffset,
    /// VI_ERROR_NSUP_VAR_WIDTH: Cannot support source and destination widths that are different.
    ErrorNsupVarWidth,
    /// VI_ERROR_WINDOW_NMAPPED: The specified session is not currently mapped.
    ErrorWindowNmapped,
    /// VI_ERROR_RESP_PENDING: A previous response is still pending, causing a multiple query error.
    ErrorRespPending,
    /// VI_ERROR_NLISTENERS: No Listeners condition is detected (both NRFD and NDAC are deasserted).
    ErrorNlisteners,
    /// VI_ERROR_NCIC: The interface associated with this session is not currently the controller in charge.
    ErrorNcic,
    /// VI_ERROR_NSYS_CNTLR: The interface associated with this session is not the system controller.
    ErrorNsysCntlr,
    /// VI_ERROR_NSUP_OPER: The given session or object reference does not support this operation.
    ErrorNsupOper,
    /// VI_ERROR_INTR_PENDING: An interrupt is still pending from a previous call.
    ErrorIntrPending,
    /// VI_ERROR_ASRL_PARITY: A parity error occurred during transfer.
    ErrorAsrlParity,
    /// VI_ERROR_ASRL_FRAMING: A framing error occurred during transfer.
    ErrorAsrlFraming,
    /// VI_ERROR_ASRL_OVERRUN: An overrun error occurred during transfer. A character was not read from the hardware before the next character arrived.
    ErrorAsrlOverrun,
    /// VI_ERROR_TRIG_NMAPPED: The path from trigSrc to trigDest is not currently mapped.
    ErrorTrigNmapped,
    /// VI_ERROR_NSUP_ALIGN_OFFSET: The specified offset is not properly aligned for the access width of the operation.
    ErrorNsupAlignOffset,
    /// VI_ERROR_USER_BUF: A specified user buffer is not valid or cannot be accessed for the required size.
    ErrorUserBuf,
    /// VI_ERROR_RSRC_BUSY: The resource is valid, but VISA cannot currently access it.
    ErrorRsrcBusy,
    /// VI_ERROR_NSUP_WIDTH: Specified width is not supported by this hardware.
    ErrorNsupWidth,
    /// VI_ERROR_INV_PARAMETER: The value of some parameter - which parameter is not known - is invalid.
    ErrorInvParameter,
    /// VI_ERROR_INV_PROT: The protocol specified is invalid.
    ErrorInvProt,
    /// VI_ERROR_INV_SIZE: Invalid size of window specified.
    ErrorInvSize,
    /// VI_ERROR_WINDOW_MAPPED: The specified session currently contains a mapped window.
    ErrorWindowMapped,
    /// VI_ERROR_NIMPL_OPER: The given operation is not implemented.
    ErrorNimplOper,
    /// VI_ERROR_INV_LENGTH: Invalid length specified.
    ErrorInvLength,
    /// VI_ERROR_INV_MODE: The specified mode is invalid.
    ErrorInvMode,
    /// VI_ERROR_SESN_NLOCKED: The current session did not have any lock on the resource.
    ErrorSesnNlocked,
    /// VI_ERROR_MEM_NSHARED: The device does not export any memory.
    ErrorMemNshared,
    /// VI_ERROR_LIBRARY_NFOUND: A code library required by VISA could not be located or loaded.
    ErrorLibraryNfound,
    /// VI_ERROR_NSUP_INTR: The interface cannot generate an interrupt on the requested level or with the requested statusID value.
    ErrorNsupIntr,
    /// VI_ERROR_INV_LINE: The value specified by the line parameter is invalid.
    ErrorInvLine,
    /// VI_ERROR_FILE_ACCESS: An error occurred while trying to open the specified file. Possible reasons include an invalid path or lack of access rights.
    ErrorFileAccess,
    /// VI_ERROR_FILE_IO: An error occurred while performing I/O on the specified file.
    ErrorFileIo,
    /// VI_ERROR_NSUP_LINE: One of the specified lines (trigSrc or trigDest) is not supported by this VISA implementation, or the combination of lines is not a valid mapping.
    ErrorNsupLine,
    /// VI_ERROR_NSUP_MECH: The specified mechanism is not supported for the given event type.
    ErrorNsupMech,
    /// VI_ERROR_INTF_NUM_NCONFIG: The interface type is valid but the specified interface number is not configured.
    ErrorIntfNumNconfig,
    /// VI_ERROR_CONN_LOST: The connection for the given session has been lost.
    ErrorConnLost,
    /// VI_ERROR_MACHINE_NAVAIL: The remote machine does not exist or is not accepting any connections.
    ErrorMachineNavail,
    /// VI_ERROR_NPERMISSION: Access to the resource or remote machine is denied. This is due to lack of sufficient privileges for the current user or machine.
    ErrorNpermission,
}

impl ErrorCode {
    /// The native status value of this code.
    pub open spec fn spec_status(self) -> i32 {
        match self {
            ErrorCode::ErrorSystemError => -1073807360i32,
            ErrorCode::ErrorInvObject => -1073807346i32,
            ErrorCode::ErrorRsrcLocked => -1073807345i32,
            ErrorCode::ErrorInvExpr => -1073807344i32,
            ErrorCode::ErrorRsrcNfound => -1073807343i32,
            ErrorCode::ErrorInvRsrcName => -1073807342i32,
            ErrorCode::ErrorInvAccMode => -1073807341i32,
            ErrorCode::ErrorTmo => -1073807339i32,
            ErrorCode::ErrorClosingFailed => -1073807338i32,
            ErrorCode::ErrorInvDegree => -1073807333i32,
            ErrorCode::ErrorInvJobId => -1073807332i32,
            ErrorCode::ErrorNsupAttr => -1073807331i32,
            ErrorCode::ErrorNsupAttrState => -1073807330i32,
            ErrorCode::ErrorAttrReadonly => -1073807329i32,
            ErrorCode::ErrorInvLockType => -1073807328i32,
            ErrorCode::ErrorInvAccessKey => -1073807327i32,
            ErrorCode::ErrorInvEvent => -1073807322i32,
            ErrorCode::ErrorInvMech => -1073807321i32,
            ErrorCode::ErrorHndlrNinstalled => -1073807320i32,
            ErrorCode::ErrorInvHndlrRef => -1073807319i32,
            ErrorCode::ErrorInvContext => -1073807318i32,
            ErrorCode::ErrorQueueOverflow => -1073807315i32,
            ErrorCode::ErrorNenabled => -1073807313i32,
            ErrorCode::ErrorAbort => -1073807312i32,
            ErrorCode::ErrorRawWrProtViol => -1073807308i32,
            ErrorCode::ErrorRawRdProtViol => -1073807307i32,
            ErrorCode::ErrorOutpProtViol => -1073807306i32,
            ErrorCode::ErrorInpProtViol => -1073807305i32,
            ErrorCode::ErrorBerr => -1073807304i32,
            ErrorCode::ErrorInProgress => -1073807303i32,
            ErrorCode::ErrorInvSetup => -1073807302i32,
            ErrorCode::ErrorQueueError => -1073807301i32,
            ErrorCode::ErrorAlloc => -1073807300i32,
            ErrorCode::ErrorInvMask => -1073807299i32,
            ErrorCode::ErrorIo => -1073807298i32,
            ErrorCode::ErrorInvFmt => -1073807297i32,
            ErrorCode::ErrorNsupFmt => -1073807295i32,
            ErrorCode::ErrorLineInUse => -1073807294i32,
            ErrorCode::ErrorNsupMode => -1073807290i32,
            ErrorCode::ErrorSrqNoccurred => -1073807286i32,
            ErrorCode::ErrorInvSpace => -1073807282i32,
            ErrorCode::ErrorInvOffset => -1073807279i32,
            ErrorCode::ErrorInvWidth => -1073807278i32,
            ErrorCode::ErrorNsupOffset => -1073807276i32,
            ErrorCode::ErrorNsupVarWidth => -1073807275i32,
            ErrorCode::ErrorWindowNmapped => -1073807273i32,
            ErrorCode::ErrorRespPending => -1073807271i32,
            ErrorCode::ErrorNlisteners => -1073807265i32,
            ErrorCode::ErrorNcic => -1073807264i32,
            ErrorCode::ErrorNsysCntlr => -1073807263i32,
            ErrorCode::ErrorNsupOper => -1073807257i32,
            ErrorCode::ErrorIntrPending => -1073807256i32,
            ErrorCode::ErrorAsrlParity => -1073807254i32,
            ErrorCode::ErrorAsrlFraming => -1073807253i32,
            ErrorCode::ErrorAsrlOverrun => -1073807252i32,
            ErrorCode::ErrorTrigNmapped => -1073807250i32,
            ErrorCode::ErrorNsupAlignOffset => -1073807248i32,
            ErrorCode::ErrorUserBuf => -1073807247i32,
            ErrorCode::ErrorRsrcBusy => -1073807246i32,
            ErrorCode::ErrorNsupWidth => -1073807242i32,
            ErrorCode::ErrorInvParameter => -1073807240i32,
            ErrorCode::ErrorInvProt => -1073807239i32,
            ErrorCode::ErrorInvSize => -1073807237i32,
            ErrorCode::ErrorWindowMapped => -1073807232i32,
            ErrorCode::ErrorNimplOper => -1073807231i32,
            ErrorCode::ErrorInvLength => -1073807229i32,
            ErrorCode::ErrorInvMode => -1073807215i32,
            ErrorCode::ErrorSesnNlocked => -1073807204i32,
            ErrorCode::ErrorMemNshared => -1073807203i32,
            ErrorCode::ErrorLibraryNfound => -1073807202i32,
            ErrorCode::ErrorNsupIntr => -1073807201i32,
            ErrorCode::ErrorInvLine => -1073807200i32,
            ErrorCode::ErrorFileAccess => -1073807199i32,
            ErrorCode::ErrorFileIo => -1073807198i32,
            ErrorCode::ErrorNsupLine => -1073807197i32,
            ErrorCode::ErrorNsupMech => -1073807196i32,
            ErrorCode::ErrorIntfNumNconfig => -1073807195i32,
            ErrorCode::ErrorConnLost => -1073807194i32,
            ErrorCode::ErrorMachineNavail => -1073807193i32,
            ErrorCode::ErrorNpermission => -1073807192i32,
        }
    }

    /// The code whose native status value is `s`, if there is one.
    pub open spec fn spec_from_status(s: i32) -> Option<ErrorCode> {
        if s == -1073807360i32 {
            Some(ErrorCode::ErrorSystemError)
        } else if s == -1073807346i32 {
            Some(ErrorCode::ErrorInvObject)
        } else if s == -1073807345i32 {
            Some(ErrorCode::ErrorRsrcLocked)
        } else if s == -1073807344i32 {
            Some(ErrorCode::ErrorInvExpr)
        } else if s == -1073807343i32 {
            Some(ErrorCode::ErrorRsrcNfound)
        } else if s == -1073807342i32 {
            Some(ErrorCode::ErrorInvRsrcName)
        } else if s == -1073807341i32 {
            Some(ErrorCode::ErrorInvAccMode)
        } else if s == -1073807339i32 {
            Some(ErrorCode::ErrorTmo)
        } else if s == -1073807338i32 {
            Some(ErrorCode::ErrorClosingFailed)
        } else if s == -1073807333i32 {
            Some(ErrorCode::ErrorInvDegree)
        } else if s == -1073807332i32 {
            Some(ErrorCode::ErrorInvJobId)
        } else if s == -1073807331i32 {
            Some(ErrorCode::ErrorNsupAttr)
        } else if s == -1073807330i32 {
            Some(ErrorCode::ErrorNsupAttrState)
        } else if s == -1073807329i32 {
            Some(ErrorCode::ErrorAttrReadonly)
        } else if s == -1073807328i32 {
            Some(ErrorCode::ErrorInvLockType)
        } else if s == -1073807327i32 {
            Some(ErrorCode::ErrorInvAccessKey)
        } else if s == -1073807322i32 {
            Some(ErrorCode::ErrorInvEvent)
        } else if s == -1073807321i32 {
            Some(ErrorCode::ErrorInvMech)
        } else if s == -1073807320i32 {
            Some(ErrorCode::ErrorHndlrNinstalled)
        } else if s == -1073807319i32 {
            Some(ErrorCode::ErrorInvHndlrRef)
        } else if s == -1073807318i32 {
            Some(ErrorCode::ErrorInvContext)
        } else if s == -1073807315i32 {
            Some(ErrorCode::ErrorQueueOverflow)
        } else if s == -1073807313i32 {
            Some(ErrorCode::ErrorNenabled)
        } else if s == -1073807312i32 {
            Some(ErrorCode::ErrorAbort)
        } else if s == -1073807308i32 {
            Some(ErrorCode::ErrorRawWrProtViol)
        } else if s == -1073807307i32 {
            Some(ErrorCode::ErrorRawRdProtViol)
        } else if s == -1073807306i32 {
            Some(ErrorCode::ErrorOutpProtViol)
        } else if s == -1073807305i32 {
            Some(ErrorCode::ErrorInpProtViol)
        } else if s == -1073807304i32 {
            Some(ErrorCode::ErrorBerr)
        } else if s == -1073807303i32 {
            Some(ErrorCode::ErrorInProgress)
        } else if s == -1073807302i32 {
            Some(ErrorCode::ErrorInvSetup)
        } else if s == -1073807301i32 {
            Some(ErrorCode::ErrorQueueError)
        } else if s == -1073807300i32 {
            Some(ErrorCode::ErrorAlloc)
        } else if s == -1073807299i32 {
            Some(ErrorCode::ErrorInvMask)
        } else if s == -1073807298i32 {
            Some(ErrorCode::ErrorIo)
        } else if s == -1073807297i32 {
            Some(ErrorCode::ErrorInvFmt)
        } else if s == -1073807295i32 {
            Some(ErrorCode::ErrorNsupFmt)
        } else if s == -1073807294i32 {
            Some(ErrorCode::ErrorLineInUse)
        } else if s == -1073807290i32 {
            Some(ErrorCode::ErrorNsupMode)
        } else if s == -1073807286i32 {
            Some(ErrorCode::ErrorSrqNoccurred)
        } else if s == -1073807282i32 {
            Some(ErrorCode::ErrorInvSpace)
        } else if s == -1073807279i32 {
            Some(ErrorCode::ErrorInvOffset)
        } else if s == -1073807278i32 {
            Some(ErrorCode::ErrorInvWidth)
        } else if s == -1073807276i32 {
            Some(ErrorCode::ErrorNsupOffset)
        } else if s == -1073807275i32 {
            Some(ErrorCode::ErrorNsupVarWidth)
        } else if s == -1073807273i32 {
            Some(ErrorCode::ErrorWindowNmapped)
        } else if s == -1073807271i32 {
            Some(ErrorCode::ErrorRespPending)
        } else if s == -1073807265i32 {
            Some(ErrorCode::ErrorNlisteners)
        } else if s == -1073807264i32 {
            Some(ErrorCode::ErrorNcic)
        } else if s == -1073807263i32 {
            Some(ErrorCode::ErrorNsysCntlr)
        } else if s == -1073807257i32 {
            Some(ErrorCode::ErrorNsupOper)
        } else if s == -1073807256i32 {
            Some(ErrorCode::ErrorIntrPending)
        } else if s == -1073807254i32 {
            Some(ErrorCode::ErrorAsrlParity)
        } else if s == -1073807253i32 {
            Some(ErrorCode::ErrorAsrlFraming)
        } else if s == -1073807252i32 {
            Some(ErrorCode::ErrorAsrlOverrun)
        } else if s == -1073807250i32 {
            Some(ErrorCode::ErrorTrigNmapped)
        } else if s == -1073807248i32 {
            Some(ErrorCode::ErrorNsupAlignOffset)
        } else if s == -1073807247i32 {
            Some(ErrorCode::ErrorUserBuf)
        } else if s == -1073807246i32 {
            Some(ErrorCode::ErrorRsrcBusy)
        } else if s == -1073807242i32 {
            Some(ErrorCode::ErrorNsupWidth)
        } else if s == -1073807240i32 {
            Some(ErrorCode::ErrorInvParameter)
        } else if s == -1073807239i32 {
            Some(ErrorCode::ErrorInvProt)
        } else if s == -1073807237i32 {
            Some(ErrorCode::ErrorInvSize)
        } else if s == -1073807232i32 {
            Some(ErrorCode::ErrorWindowMapped)
        } else if s == -1073807231i32 {
            Some(ErrorCode::ErrorNimplOper)
        } else if s == -1073807229i32 {
            Some(ErrorCode::ErrorInvLength)
        } else if s == -1073807215i32 {
            Some(ErrorCode::ErrorInvMode)
        } else if s == -1073807204i32 {
            Some(ErrorCode::ErrorSesnNlocked)
        } else if s == -1073807203i32 {
            Some(ErrorCode::ErrorMemNshared)
        } else if s == -1073807202i32 {
            Some(ErrorCode::ErrorLibraryNfound)
        } else if s == -1073807201i32 {
            Some(ErrorCode::ErrorNsupIntr)
        } else if s == -1073807200i32 {
            Some(ErrorCode::ErrorInvLine)
        } else if s == -1073807199i32 {
            Some(ErrorCode::ErrorFileAccess)
        } else if s == -1073807198i32 {
            Some(ErrorCode::ErrorFileIo)
        } else if s == -1073807197i32 {
            Some(ErrorCode::ErrorNsupLine)
        } else if s == -1073807196i32 {
            Some(ErrorCode::ErrorNsupMech)
        } else if s == -1073807195i32 {
            Some(ErrorCode::ErrorIntfNumNconfig)
        } else if s == -1073807194i32 {
            Some(ErrorCode::ErrorConnLost)
        } else if s == -1073807193i32 {
            Some(ErrorCode::ErrorMachineNavail)
        } else if s == -1073807192i32 {
            Some(ErrorCode::ErrorNpermission)
        } else {
            None
        }
    }

    /// The native status value of this code.
    pub fn status(self) -> (r: i32)
        ensures
            r == self.spec_status(),
    {
        match self {
            ErrorCode::ErrorSystemError => -1073807360i32,
            ErrorCode::ErrorInvObject => -1073807346i32,
            ErrorCode::ErrorRsrcLocked => -1073807345i32,
            ErrorCode::ErrorInvExpr => -1073807344i32,
            ErrorCode::ErrorRsrcNfound => -1073807343i32,
            ErrorCode::ErrorInvRsrcName => -1073807342i32,
            ErrorCode::ErrorInvAccMode => -1073807341i32,
            ErrorCode::ErrorTmo => -1073807339i32,
            ErrorCode::ErrorClosingFailed => -1073807338i32,
            ErrorCode::ErrorInvDegree => -1073807333i32,
            ErrorCode::ErrorInvJobId => -1073807332i32,
            ErrorCode::ErrorNsupAttr => -1073807331i32,
            ErrorCode::ErrorNsupAttrState => -1073807330i32,
            ErrorCode::ErrorAttrReadonly => -1073807329i32,
            ErrorCode::ErrorInvLockType => -1073807328i32,
            ErrorCode::ErrorInvAccessKey => -1073807327i32,
            ErrorCode::ErrorInvEvent => -1073807322i32,
            ErrorCode::ErrorInvMech => -1073807321i32,
            ErrorCode::ErrorHndlrNinstalled => -1073807320i32,
            ErrorCode::ErrorInvHndlrRef => -1073807319i32,
            ErrorCode::ErrorInvContext => -1073807318i32,
            ErrorCode::ErrorQueueOverflow => -1073807315i32,
            ErrorCode::ErrorNenabled => -1073807313i32,
            ErrorCode::ErrorAbort => -1073807312i32,
            ErrorCode::ErrorRawWrProtViol => -1073807308i32,
            ErrorCode::ErrorRawRdProtViol => -1073807307i32,
            ErrorCode::ErrorOutpProtViol => -1073807306i32,
            ErrorCode::ErrorInpProtViol => -1073807305i32,
            ErrorCode::ErrorBerr => -1073807304i32,
            ErrorCode::ErrorInProgress => -1073807303i32,
            ErrorCode::ErrorInvSetup => -1073807302i32,
            ErrorCode::ErrorQueueError => -1073807301i32,
            ErrorCode::ErrorAlloc => -1073807300i32,
            ErrorCode::ErrorInvMask => -1073807299i32,
            ErrorCode::ErrorIo => -1073807298i32,
            ErrorCode::ErrorInvFmt => -1073807297i32,
            ErrorCode::ErrorNsupFmt => -1073807295i32,
            ErrorCode::ErrorLineInUse => -1073807294i32,
            ErrorCode::ErrorNsupMode => -1073807290i32,
            ErrorCode::ErrorSrqNoccurred => -1073807286i32,
            ErrorCode::ErrorInvSpace => -1073807282i32,
            ErrorCode::ErrorInvOffset => -1073807279i32,
            ErrorCode::ErrorInvWidth => -1073807278i32,
            ErrorCode::ErrorNsupOffset => -1073807276i32,
            ErrorCode::ErrorNsupVarWidth => -1073807275i32,
            ErrorCode::ErrorWindowNmapped => -1073807273i32,
            ErrorCode::ErrorRespPending => -1073807271i32,
            ErrorCode::ErrorNlisteners => -1073807265i32,
            ErrorCode::ErrorNcic => -1073807264i32,
            ErrorCode::ErrorNsysCntlr => -1073807263i32,
            ErrorCode::ErrorNsupOper => -1073807257i32,
            ErrorCode::ErrorIntrPending => -1073807256i32,
            ErrorCode::ErrorAsrlParity => -1073807254i32,
            ErrorCode::ErrorAsrlFraming => -1073807253i32,
            ErrorCode::ErrorAsrlOverrun => -1073807252i32,
            ErrorCode::ErrorTrigNmapped => -1073807250i32,
            ErrorCode::ErrorNsupAlignOffset => -1073807248i32,
            ErrorCode::ErrorUserBuf => -1073807247i32,
            ErrorCode::ErrorRsrcBusy => -1073807246i32,
            ErrorCode::ErrorNsupWidth => -1073807242i32,
            ErrorCode::ErrorInvParameter => -1073807240i32,
            ErrorCode::ErrorInvProt => -1073807239i32,
            ErrorCode::ErrorInvSize => -1073807237i32,
            ErrorCode::ErrorWindowMapped => -1073807232i32,
            ErrorCode::ErrorNimplOper => -1073807231i32,
            ErrorCode::ErrorInvLength => -1073807229i32,
            ErrorCode::ErrorInvMode => -1073807215i32,
            ErrorCode::ErrorSesnNlocked => -1073807204i32,
            ErrorCode::ErrorMemNshared => -1073807203i32,
            ErrorCode::ErrorLibraryNfound => -1073807202i32,
            ErrorCode::ErrorNsupIntr => -1073807201i32,
            ErrorCode::ErrorInvLine => -1073807200i32,
            ErrorCode::ErrorFileAccess => -1073807199i32,
            ErrorCode::ErrorFileIo => -1073807198i32,
            ErrorCode::ErrorNsupLine => -1073807197i32,
            ErrorCode::ErrorNsupMech => -1073807196i32,
            ErrorCode::ErrorIntfNumNconfig => -1073807195i32,
            ErrorCode::ErrorConnLost => -1073807194i32,
            ErrorCode::ErrorMachineNavail => -1073807193i32,
            ErrorCode::ErrorNpermission => -1073807192i32,
        }
    }

    /// Looks up the code whose native status value is `s`.
    pub fn from_status(s: i32) -> (r: Option<ErrorCode>)
        ensures
            r == Self::spec_from_status(s),
    {
        if s == -1073807360i32 {
            Some(ErrorCode::ErrorSystemError)
        } else if s == -1073807346i32 {
            Some(ErrorCode::ErrorInvObject)
        } else if s == -1073807345i32 {
            Some(ErrorCode::ErrorRsrcLocked)
        } else if s == -1073807344i32 {
            Some(ErrorCode::ErrorInvExpr)
        } else if s == -1073807343i32 {
            Some(ErrorCode::ErrorRsrcNfound)
        } else if s == -1073807342i32 {
            Some(ErrorCode::ErrorInvRsrcName)
        } else if s == -1073807341i32 {
            Some(ErrorCode::ErrorInvAccMode)
        } else if s == -1073807339i32 {
            Some(ErrorCode::ErrorTmo)
        } else if s == -1073807338i32 {
            Some(ErrorCode::ErrorClosingFailed)
        } else if s == -1073807333i32 {
            Some(ErrorCode::ErrorInvDegree)
        } else if s == -1073807332i32 {
            Some(ErrorCode::ErrorInvJobId)
        } else if s == -1073807331i32 {
            Some(ErrorCode::ErrorNsupAttr)
        } else if s == -1073807330i32 {
            Some(ErrorCode::ErrorNsupAttrState)
        } else if s == -1073807329i32 {
            Some(ErrorCode::ErrorAttrReadonly)
        } else if s == -1073807328i32 {
            Some(ErrorCode::ErrorInvLockType)
        } else if s == -1073807327i32 {
            Some(ErrorCode::ErrorInvAccessKey)
        } else if s == -1073807322i32 {
            Some(ErrorCode::ErrorInvEvent)
        } else if s == -1073807321i32 {
            Some(ErrorCode::ErrorInvMech)
        } else if s == -1073807320i32 {
            Some(ErrorCode::ErrorHndlrNinstalled)
        } else if s == -1073807319i32 {
            Some(ErrorCode::ErrorInvHndlrRef)
        } else if s == -1073807318i32 {
            Some(ErrorCode::ErrorInvContext)
        } else if s == -1073807315i32 {
            Some(ErrorCode::ErrorQueueOverflow)
        } else if s == -1073807313i32 {
            Some(ErrorCode::ErrorNenabled)
        } else if s == -1073807312i32 {
            Some(ErrorCode::ErrorAbort)
        } else if s == -1073807308i32 {
            Some(ErrorCode::ErrorRawWrProtViol)
        } else if s == -1073807307i32 {
            Some(ErrorCode::ErrorRawRdProtViol)
        } else if s == -1073807306i32 {
            Some(ErrorCode::ErrorOutpProtViol)
        } else if s == -1073807305i32 {
            Some(ErrorCode::ErrorInpProtViol)
        } else if s == -1073807304i32 {
            Some(ErrorCode::ErrorBerr)
        } else if s == -1073807303i32 {
            Some(ErrorCode::ErrorInProgress)
        } else if s == -1073807302i32 {
            Some(ErrorCode::ErrorInvSetup)
        } else if s == -1073807301i32 {
            Some(ErrorCode::ErrorQueueError)
        } else if s == -1073807300i32 {
            Some(ErrorCode::ErrorAlloc)
        } else if s == -1073807299i32 {
            Some(ErrorCode::ErrorInvMask)
        } else if s == -1073807298i32 {
            Some(ErrorCode::ErrorIo)
        } else if s == -1073807297i32 {
            Some(ErrorCode::ErrorInvFmt)
        } else if s == -1073807295i32 {
            Some(ErrorCode::ErrorNsupFmt)
        } else if s == -1073807294i32 {
            Some(ErrorCode::ErrorLineInUse)
        } else if s == -1073807290i32 {
            Some(ErrorCode::ErrorNsupMode)
        } else if s == -1073807286i32 {
            Some(ErrorCode::ErrorSrqNoccurred)
        } else if s == -1073807282i32 {
            Some(ErrorCode::ErrorInvSpace)
        } else if s == -1073807279i32 {
            Some(ErrorCode::ErrorInvOffset)
        } else if s == -1073807278i32 {
            Some(ErrorCode::ErrorInvWidth)
        } else if s == -1073807276i32 {
            Some(ErrorCode::ErrorNsupOffset)
        } else if s == -1073807275i32 {
            Some(ErrorCode::ErrorNsupVarWidth)
        } else if s == -1073807273i32 {
            Some(ErrorCode::ErrorWindowNmapped)
        } else if s == -1073807271i32 {
            Some(ErrorCode::ErrorRespPending)
        } else if s == -1073807265i32 {
            Some(ErrorCode::ErrorNlisteners)
        } else if s == -1073807264i32 {
            Some(ErrorCode::ErrorNcic)
        } else if s == -1073807263i32 {
            Some(ErrorCode::ErrorNsysCntlr)
        } else if s == -1073807257i32 {
            Some(ErrorCode::ErrorNsupOper)
        } else if s == -1073807256i32 {
            Some(ErrorCode::ErrorIntrPending)
        } else if s == -1073807254i32 {
            Some(ErrorCode::ErrorAsrlParity)
        } else if s == -1073807253i32 {
            Some(ErrorCode::ErrorAsrlFraming)
        } else if s == -1073807252i32 {
            Some(ErrorCode::ErrorAsrlOverrun)
        } else if s == -1073807250i32 {
            Some(ErrorCode::ErrorTrigNmapped)
        } else if s == -1073807248i32 {
            Some(ErrorCode::ErrorNsupAlignOffset)
        } else if s == -1073807247i32 {
            Some(ErrorCode::ErrorUserBuf)
        } else if s == -1073807246i32 {
            Some(ErrorCode::ErrorRsrcBusy)
        } else if s == -1073807242i32 {
            Some(ErrorCode::ErrorNsupWidth)
        } else if s == -1073807240i32 {
            Some(ErrorCode::ErrorInvParameter)
        } else if s == -1073807239i32 {
            Some(ErrorCode::ErrorInvProt)
        } else if s == -1073807237i32 {
            Some(ErrorCode::ErrorInvSize)
        } else if s == -1073807232i32 {
            Some(ErrorCode::ErrorWindowMapped)
        } else if s == -1073807231i32 {
            Some(ErrorCode::ErrorNimplOper)
        } else if s == -1073807229i32 {
            Some(ErrorCode::ErrorInvLength)
        } else if s == -1073807215i32 {
            Some(ErrorCode::ErrorInvMode)
        } else if s == -1073807204i32 {
            Some(ErrorCode::ErrorSesnNlocked)
        } else if s == -1073807203i32 {
            Some(ErrorCode::ErrorMemNshared)
        } else if s == -1073807202i32 {
            Some(ErrorCode::ErrorLibraryNfound)
        } else if s == -1073807201i32 {
            Some(ErrorCode::ErrorNsupIntr)
        } else if s == -1073807200i32 {
            Some(ErrorCode::ErrorInvLine)
        } else if s == -1073807199i32 {
            Some(ErrorCode::ErrorFileAccess)
        } else if s == -1073807198i32 {
            Some(ErrorCode::ErrorFileIo)
        } else if s == -1073807197i32 {
            Some(ErrorCode::ErrorNsupLine)
        } else if s == -1073807196i32 {
            Some(ErrorCode::ErrorNsupMech)
        } else if s == -1073807195i32 {
            Some(ErrorCode::ErrorIntfNumNconfig)
        } else if s == -1073807194i32 {
            Some(ErrorCode::ErrorConnLost)
        } else if s == -1073807193i32 {
            Some(ErrorCode::ErrorMachineNavail)
        } else if s == -1073807192i32 {
            Some(ErrorCode::ErrorNpermission)
        } else {
            None
        }
    }
}

/// Completion (success and warning) status codes of the native layer.
#[derive(Debug, Clone, Copy, PartialEq, Eq, Structural, PartialOrd, Ord, Hash)]
pub enum CompletionCode {
    /// VI_SUCCESS: Operation completed successfully.
    Success,
    /// VI_SUCCESS_EVENT_EN: Specified event is already enabled for at least one of the specified mechanisms.
    SuccessEventEn,
    /// VI_SUCCESS_EVENT_DIS: Specified event is already disabled for at least one of the specified mechanisms.
    SuccessEventDis,
    /// VI_SUCCESS_QUEUE_EMPTY: Operation completed successfully, but queue was already empty.
    SuccessQueueEmpty,
    /// VI_SUCCESS_TERM_CHAR: The specified termination character was read.
    SuccessTermChar,
    /// VI_SUCCESS_MAX_CNT: The number of bytes read is equal to the input count.
    SuccessMaxCnt,
    /// VI_WARN_QUEUE_OVERFLOW: The event returned is valid. One or more events that occurred have not been raised because there was no room available on the queue at the time of their occurrence. This could happen because VI_ATTR_MAX_QUEUE_LENGTH is not set to a large enough value for your application and/or events are coming in faster than you are servicing them.
    WarnQueueOverflow,
    /// VI_WARN_CONFIG_NLOADED: The specified configuration either does not exist or could not be loaded; using VISA-specified defaults.
    WarnConfigNloaded,
    /// VI_SUCCESS_DEV_NPRESENT: Session opened successfully, but the device at the specified address is not responding.
    SuccessDevNpresent,
    /// VI_SUCCESS_TRIG_MAPPED: The path from trigSrc to trigDest is already mapped.
    SuccessTrigMapped,
    /// VI_SUCCESS_QUEUE_NEMPTY: Wait terminated successfully on receipt of an event notification. There is still at least one more event occurrence of the requested type(s) available for this session.
    SuccessQueueNempty,
    /// VI_WARN_NULL_OBJECT: The specified object reference is uninitialized.
    WarnNullObject,
    /// VI_WARN_NSUP_ATTR_STATE: Although the specified state of the attribute is valid, it is not supported by this resource implementation.
    WarnNsupAttrState,
    /// VI_WARN_UNKNOWN_STATUS: The status code passed to the operation could not be interpreted.
    WarnUnknownStatus,
    /// VI_WARN_NSUP_BUF: The specified buffer is not supported.
    WarnNsupBuf,
    /// VI_SUCCESS_NCHAIN: Event handled successfully. Do not invoke any other handlers on this session for this event.
    SuccessNchain,
    /// VI_SUCCESS_NESTED_SHARED: Operation completed successfully, and this session has nested shared locks.
    SuccessNestedShared,
    /// VI_SUCCESS_NESTED_EXCLUSIVE: Operation completed successfully, and this session has nested exclusive locks.
    SuccessNestedExclusive,
    /// VI_SUCCESS_SYNC: Asynchronous operation request was actually performed synchronously.
    SuccessSync,
    /// VI_WARN_EXT_FUNC_NIMPL: The operation succeeded, but a lower level driver did not implement the extended functionality.
    WarnExtFuncNimpl,
}

impl CompletionCode {
    /// The native status value of this code.
    pub open spec fn spec_status(self) -> i32 {
        match self {
            CompletionCode::Success => 0i32,
            CompletionCode::SuccessEventEn => 1073676290i32,
            CompletionCode::SuccessEventDis => 1073676291i32,
            CompletionCode::SuccessQueueEmpty => 1073676292i32,
            CompletionCode::SuccessTermChar => 1073676293i32,
            CompletionCode::SuccessMaxCnt => 1073676294i32,
            CompletionCode::WarnQueueOverflow => 1073676300i32,
            CompletionCode::WarnConfigNloaded => 1073676407i32,
            CompletionCode::SuccessDevNpresent => 1073676413i32,
            CompletionCode::SuccessTrigMapped => 1073676414i32,
            CompletionCode::SuccessQueueNempty => 1073676416i32,
            CompletionCode::WarnNullObject => 1073676418i32,
            CompletionCode::WarnNsupAttrState => 1073676420i32,
            CompletionCode::WarnUnknownStatus => 1073676421i32,
            CompletionCode::WarnNsupBuf => 1073676424i32,
            CompletionCode::SuccessNchain => 1073676440i32,
            CompletionCode::SuccessNestedShared => 1073676441i32,
            CompletionCode::SuccessNestedExclusive => 1073676442i32,
            CompletionCode::SuccessSync => 1073676443i32,
            CompletionCode::WarnExtFuncNimpl => 1073676457i32,
        }
    }

    /// The code whose native status value is `s`, if there is one.
    pub open spec fn spec_from_status(s: i32) -> Option<CompletionCode> {
        if s == 0i32 {
            Some(CompletionCode::Success)
        } else if s == 1073676290i32 {
            Some(CompletionCode::SuccessEventEn)
        } else if s == 1073676291i32 {
            Some(CompletionCode::SuccessEventDis)
        } else if s == 1073676292i32 {
            Some(CompletionCode::SuccessQueueEmpty)
        } else if s == 1073676293i32 {
            Some(CompletionCode::SuccessTermChar)
        } else if s == 1073676294i32 {
            Some(CompletionCode::SuccessMaxCnt)
        } else if s == 1073676300i32 {
            Some(CompletionCode::WarnQueueOverflow)
        } else if s == 1073676407i32 {
            Some(CompletionCode::WarnConfigNloaded)
        } else if s == 1073676413i32 {
            Some(CompletionCode::SuccessDevNpresent)
        } else if s == 1073676414i32 {
            Some(CompletionCode::SuccessTrigMapped)
        } else if s == 1073676416i32 {
            Some(CompletionCode::SuccessQueueNempty)
        } else if s == 1073676418i32 {
            Some(CompletionCode::WarnNullObject)
        } else if s == 1073676420i32 {
            Some(CompletionCode::WarnNsupAttrState)
        } else if s == 1073676421i32 {
            Some(CompletionCode::WarnUnknownStatus)
        } else if s == 1073676424i32 {
            Some(CompletionCode::WarnNsupBuf)
        } else if s == 1073676440i32 {
            Some(CompletionCode::SuccessNchain)
        } else if s == 1073676441i32 {
            Some(CompletionCode::SuccessNestedShared)
        } else if s == 1073676442i32 {
            Some(CompletionCode::SuccessNestedExclusive)
        } else if s == 1073676443i32 {
            Some(CompletionCode::SuccessSync)
        } else if s == 1073676457i32 {
            Some(CompletionCode::WarnExtFuncNimpl)
        } else {
            None
        }
    }

    /// The native status value of this code.
    pub fn status(self) -> (r: i32)
        ensures
            r == self.spec_status(),
    {
        match self {
            CompletionCode::Success => 0i32,
            CompletionCode::SuccessEventEn => 1073676290i32,
            CompletionCode::SuccessEventDis => 1073676291i32,
            CompletionCode::SuccessQueueEmpty => 1073676292i32,
            CompletionCode::SuccessTermChar => 1073676293i32,
            CompletionCode::SuccessMaxCnt => 1073676294i32,
            CompletionCode::WarnQueueOverflow => 1073676300i32,
            CompletionCode::WarnConfigNloaded => 1073676407i32,
            CompletionCode::SuccessDevNpresent => 1073676413i32,
            CompletionCode::SuccessTrigMapped => 1073676414i32,
            CompletionCode::SuccessQueueNempty => 1073676416i32,
            CompletionCode::WarnNullObject => 1073676418i32,
            CompletionCode::WarnNsupAttrState => 1073676420i32,
            CompletionCode::WarnUnknownStatus => 1073676421i32,
            CompletionCode::WarnNsupBuf => 1073676424i32,
            CompletionCode::SuccessNchain => 1073676440i32,
            CompletionCode::SuccessNestedShared => 1073676441i32,
            CompletionCode::SuccessNestedExclusive => 1073676442i32,
            CompletionCode::SuccessSync => 1073676443i32,
            CompletionCode::WarnExtFuncNimpl => 1073676457i32,
        }
    }

    /// Looks up the code whose native status value is `s`.
    pub fn from_status(s: i32) -> (r: Option<CompletionCode>)
        ensures
            r == Self::spec_from_status(s),
    {
        if s == 0i32 {
            Some(CompletionCode::Success)
        } else if s == 1073676290i32 {
            Some(CompletionCode::SuccessEventEn)
        } else if s == 1073676291i32 {
            Some(CompletionCode::SuccessEventDis)
        } else if s == 1073676292i32 {
            Some(CompletionCode::SuccessQueueEmpty)
        } else if s == 1073676293i32 {
            Some(CompletionCode::SuccessTermChar)
        } else if s == 1073676294i32 {
            Some(CompletionCode::SuccessMaxCnt)
        } else if s == 1073676300i32 {
            Some(CompletionCode::WarnQueueOverflow)
        } else if s == 1073676407i32 {
            Some(CompletionCode::WarnConfigNloaded)
        } else if s == 1073676413i32 {
            Some(CompletionCode::SuccessDevNpresent)
        } else if s == 1073676414i32 {
            Some(CompletionCode::SuccessTrigMapped)
        } else if s == 1073676416i32 {
            Some(CompletionCode::SuccessQueueNempty)
        } else if s == 1073676418i32 {
            Some(CompletionCode::WarnNullObject)
        } else if s == 1073676420i32 {
            Some(CompletionCode::WarnNsupAttrState)
        } else if s == 1073676421i32 {
            Some(CompletionCode::WarnUnknownStatus)
        } else if s == 1073676424i32 {
            Some(CompletionCode::WarnNsupBuf)
        } else if s == 1073676440i32 {
            Some(CompletionCode::SuccessNchain)
        } else if s == 1073676441i32 {
            Some(CompletionCode::SuccessNestedShared)
        } else if s == 1073676442i32 {
            Some(CompletionCode::SuccessNestedExclusive)
        } else if s == 1073676443i32 {
            Some(CompletionCode::SuccessSync)
        } else if s == 1073676457i32 {
            Some(CompletionCode::WarnExtFuncNimpl)
        } else {
            None
        }
    }
}

impl CompletionCode {
    /// The completion codes that finish an asynchronous transfer successfully:
    /// plain and synchronous success, maximum count reached, termination
    /// character read, queue empty or not empty, and the queue-overflow warning.
    pub open spec fn spec_is_transfer_success(self) -> bool {
        match self {
            CompletionCode::Success => true,
            CompletionCode::SuccessSync => true,
            CompletionCode::SuccessMaxCnt => true,
            CompletionCode::SuccessTermChar => true,
            CompletionCode::SuccessQueueEmpty => true,
            CompletionCode::SuccessQueueNempty => true,
            CompletionCode::WarnQueueOverflow => true,
            _ => false,
        }
    }

    pub fn is_transfer_success(self) -> (r: bool)
        ensures
            r == self.spec_is_transfer_success(),
    {
        match self {
            CompletionCode::Success | CompletionCode::SuccessSync | CompletionCode::SuccessMaxCnt
            | CompletionCode::SuccessTermChar | CompletionCode::SuccessQueueEmpty
            | CompletionCode::SuccessQueueNempty | CompletionCode::WarnQueueOverflow => true,
            _ => false,
        }
    }
}

/// Whether the native status `s` reports a successfully finished transfer.
pub open spec fn spec_is_transfer_status(s: i32) -> bool {
    CompletionCode::spec_from_status(s) matches Some(c) && c.spec_is_transfer_success()
}

/// Whether the native status `s` reports a successfully finished transfer.
pub fn is_transfer_status(s: i32) -> (r: bool)
    ensures
        r == spec_is_transfer_status(s),
{
    match CompletionCode::from_status(s) {
        Some(c) => c.is_transfer_success(),
        None => false,
    }
}

/// Every error code is found again from its native status value.
pub proof fn lemma_error_status_round_trip(e: ErrorCode)
    ensures
        ErrorCode::spec_from_status(e.spec_status()) == Some(e),
{
}

/// Every completion code is found again from its native status value.
pub proof fn lemma_completion_status_round_trip(c: CompletionCode)
    ensures
        CompletionCode::spec_from_status(c.spec_status()) == Some(c),
{
}

/// Error codes are negative and completion codes are not, so no status
/// value names both.
pub proof fn lemma_error_and_completion_disjoint(s: i32)
    ensures
        ErrorCode::spec_from_status(s) is Some ==> s < 0,
        CompletionCode::spec_from_status(s) is Some ==> s >= 0,
{
}

} // verus!
