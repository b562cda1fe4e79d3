//! Devices of a user: registering them, listing and deleting them, asking
//! them to approve a login, and handing encrypted data from an old device to
//! a new one.

use vstd::prelude::*;
use crate::common::failure;
use crate::common::status_of;
use crate::common::PushSubscription;
use crate::common::PushSubscriptionsStore;
use crate::common::Query;
use crate::common::StatusCode;
use crate::common::Step;
use crate::store::KeyedStore;
use crate::text::decimal;
use crate::text::decimal_text;
use crate::text::joined;

verus! {

/// A request to register a user's first device.
#[derive(Debug)]
pub struct RegisterFirstDeviceRequest {
    pub phone: String,
    pub device_id: String,
    pub push_subscription: Option<PushSubscription>,
}

/// The answer to a request to register a first device.
#[derive(Debug)]
pub struct RegisterFirstDeviceResponse {
    pub success: bool,
    pub device_id: String,
    pub message: String,
}

/// A request to register a further device.
#[derive(Debug)]
pub struct RegisterDeviceRequest {
    pub phone: String,
    pub device_id: String,
    pub push_subscription: Option<PushSubscription>,
}

/// The answer to a request to register a further device.
#[derive(Debug)]
pub struct RegisterDeviceResponse {
    pub success: bool,
    pub device_id: String,
    pub message: String,
}

/// A request to ask a user's devices to approve a login.
#[derive(Debug)]
pub struct LoginRequestRequest {
    pub phone: String,
    pub device_id: String,
    pub action: String,
    pub password: String,
}

/// The answer to a login request.
#[derive(Debug)]
pub struct LoginRequestResponse {
    pub success: bool,
    pub message: String,
}

/// A request to deposit encrypted data for a transfer.
#[derive(Debug)]
pub struct UploadEncryptedDataRequest {
    pub phone: String,
    pub transfer_id: String,
    pub encrypted_data: Vec<u8>,
    pub salt: Vec<u8>,
    pub iv: Vec<u8>,
}

/// The answer to a deposit of encrypted data.
#[derive(Debug)]
pub struct UploadEncryptedDataResponse {
    pub success: bool,
    pub message: String,
}

/// A request to fetch the encrypted data of a transfer.
#[derive(Debug)]
pub struct DownloadEncryptedDataRequest {
    pub phone: String,
    pub transfer_id: String,
}

/// The answer to a request to fetch encrypted data.
#[derive(Debug)]
pub struct DownloadEncryptedDataResponse {
    pub success: bool,
    pub encrypted_data: Option<Vec<u8>>,
    pub salt: Option<Vec<u8>>,
    pub iv: Option<Vec<u8>>,
    pub message: String,
}

/// A request to list a user's devices.
#[derive(Debug)]
pub struct GetDevicesRequest {
    pub phone: String,
}

/// One device of a user.
#[derive(Debug)]
pub struct DeviceInfo {
    pub credential_id: String,
    pub device_name: Option<String>,
    pub created_at: String,
    pub last_used_at: Option<String>,
    pub is_current: bool,
}

/// The answer to a request to list devices.
#[derive(Debug)]
pub struct GetDevicesResponse {
    pub success: bool,
    pub devices: Vec<DeviceInfo>,
    pub message: String,
}

/// A request to delete a device.
#[derive(Debug)]
pub struct DeleteDeviceRequest {
    pub phone: String,
    pub credential_id: String,
}

/// The answer to a request to delete a device.
#[derive(Debug)]
pub struct DeleteDeviceResponse {
    pub success: bool,
    pub message: String,
}

/// Encrypted data deposited for a transfer, and the phone number it is for.
#[derive(Debug)]
pub struct EncryptedTransfer {
    pub encrypted_data: Vec<u8>,
    pub salt: Vec<u8>,
    pub iv: Vec<u8>,
    pub phone: String,
}

/// The deposited transfers, by transfer identifier.
pub type EncryptedDataStore = KeyedStore<EncryptedTransfer>;

/// Whether `response` reports that the device `device_id` is registered.
pub open spec fn first_device_registered(
    response: RegisterFirstDeviceResponse,
    device_id: Seq<char>,
) -> bool {
    &&& response.success
    &&& response.device_id@ == device_id
    &&& response.message@ == "Device registered successfully"@
}

/// The answer that the device in `body` is registered.
fn first_device_answer(body: &RegisterFirstDeviceRequest) -> (response: RegisterFirstDeviceResponse)
    ensures
        first_device_registered(response, body.device_id@),
{
    RegisterFirstDeviceResponse {
        success: true,
        device_id: body.device_id.clone(),
        message: "Device registered successfully".to_owned(),
    }
}

/// Registers a user's first device, given whether the database holds the
/// user. A user that exists gets the answer at once; one that does not is to
/// be created first.
pub fn register_first_device(body: &RegisterFirstDeviceRequest, user: &Query<bool>) -> (step: Step<
    RegisterFirstDeviceResponse,
>)
    ensures
        match *user {
            Query::Answered(true) => step matches Step::Respond(Ok(response))
                && first_device_registered(response, body.device_id@),
            Query::Answered(false) => step is CreateUser,
            _ => step == Step::Respond(
                Err::<RegisterFirstDeviceResponse, StatusCode>(status_of(*user)),
            ),
        },
{
    match user {
        Query::Answered(true) => Step::Respond(Ok(first_device_answer(body))),
        Query::Answered(false) => Step::CreateUser,
        _ => Step::Respond(Err(failure(user))),
    }
}

/// Finishes the registration of a first device, given how creating the user
/// ended.
pub fn register_first_device_created(
    body: &RegisterFirstDeviceRequest,
    created: &Query<()>,
) -> (answer: Result<RegisterFirstDeviceResponse, StatusCode>)
    ensures
        match *created {
            Query::Answered(_) => answer matches Ok(response) && first_device_registered(
                response,
                body.device_id@,
            ),
            _ => answer == Err::<RegisterFirstDeviceResponse, StatusCode>(status_of(*created)),
        },
{
    match created {
        Query::Answered(_) => Ok(first_device_answer(body)),
        _ => Err(failure(created)),
    }
}

/// The status with which a handler fails that needs the user to exist.
pub open spec fn user_failure(user: Query<bool>) -> StatusCode {
    match user {
        Query::Answered(_) => StatusCode::NotFound,
        _ => status_of(user),
    }
}

/// The status with which a handler fails that needs the user to exist.
fn missing_user(user: &Query<bool>) -> (status: StatusCode)
    ensures
        status == user_failure(*user),
{
    match user {
        Query::Answered(_) => StatusCode::NotFound,
        _ => failure(user),
    }
}

/// Registers a further device, given whether the database holds the user.
pub fn register_device(body: &RegisterDeviceRequest, user: &Query<bool>) -> (answer: Result<
    RegisterDeviceResponse,
    StatusCode,
>)
    ensures
        match *user {
            Query::Answered(true) => answer matches Ok(response) && {
                &&& response.success
                &&& response.device_id@ == body.device_id@
                &&& response.message@ == "Device registered successfully"@
            },
            _ => answer == Err::<RegisterDeviceResponse, StatusCode>(user_failure(*user)),
        },
{
    match user {
        Query::Answered(true) => Ok(
            RegisterDeviceResponse {
                success: true,
                device_id: body.device_id.clone(),
                message: "Device registered successfully".to_owned(),
            },
        ),
        _ => Err(missing_user(user)),
    }
}

/// Lists a user's devices, given whether the database holds the user. No
/// device is stored, so the list is empty either way.
pub fn get_devices(user: &Query<bool>) -> (answer: Result<GetDevicesResponse, StatusCode>)
    ensures
        match *user {
            Query::Answered(exists) => answer matches Ok(response) && {
                &&& response.success
                &&& response.devices@.len() == 0
                &&& response.message@ == if exists {
                    "Devices retrieved successfully"@
                } else {
                    "No devices found"@
                }
            },
            _ => answer == Err::<GetDevicesResponse, StatusCode>(status_of(*user)),
        },
{
    match user {
        Query::Answered(true) => Ok(
            GetDevicesResponse {
                success: true,
                devices: Vec::new(),
                message: "Devices retrieved successfully".to_owned(),
            },
        ),
        Query::Answered(false) => Ok(
            GetDevicesResponse {
                success: true,
                devices: Vec::new(),
                message: "No devices found".to_owned(),
            },
        ),
        _ => Err(failure(user)),
    }
}

/// Deletes a device, given whether the database holds the user.
pub fn delete_device(user: &Query<bool>) -> (answer: Result<DeleteDeviceResponse, StatusCode>)
    ensures
        match *user {
            Query::Answered(true) => answer matches Ok(response) && response.success
                && response.message@ == "Device deleted successfully"@,
            _ => answer == Err::<DeleteDeviceResponse, StatusCode>(user_failure(*user)),
        },
{
    match user {
        Query::Answered(true) => Ok(
            DeleteDeviceResponse {
                success: true,
                message: "Device deleted successfully".to_owned(),
            },
        ),
        _ => Err(missing_user(user)),
    }
}

/// What a user is told whose devices were asked to approve a login.
pub open spec fn login_request_message(devices: nat) -> Seq<char> {
    "Login request sent to "@ + decimal_text(devices) + " device(s)"@
}

/// Asks the devices of the user in `body` to approve a login. It succeeds
/// where the user has push subscriptions, and says to how many devices the
/// request goes.
pub fn send_login_request(
    subscriptions: &PushSubscriptionsStore,
    body: &LoginRequestRequest,
) -> (answer: Result<LoginRequestResponse, StatusCode>)
    ensures
        answer matches Ok(response) && {
            &&& response.success == subscriptions@.contains_key(body.phone@)
            &&& response.message@ == if subscriptions@.contains_key(body.phone@) {
                login_request_message(subscriptions@[body.phone@]@.len())
            } else {
                "No devices found for this phone number"@
            }
        },
{
    match subscriptions.get(&body.phone) {
        Some(devices) => {
            let count = decimal(devices.len() as u64);
            let head = joined("Login request sent to ", count.as_str());
            Ok(
                LoginRequestResponse {
                    success: true,
                    message: joined(head.as_str(), " device(s)"),
                },
            )
        },
        None => Ok(
            LoginRequestResponse {
                success: false,
                message: "No devices found for this phone number".to_owned(),
            },
        ),
    }
}

/// Deposits the encrypted data in `body` under its transfer identifier, in
/// place of what was deposited there before.
pub fn upload_encrypted_data(store: &mut EncryptedDataStore, body: UploadEncryptedDataRequest) -> (answer:
    Result<UploadEncryptedDataResponse, StatusCode>)
    ensures
        answer matches Ok(response) && response.success && response.message@
            == "Encrypted data uploaded successfully"@,
        final(store)@ == old(store)@.insert(
            body.transfer_id@,
            (EncryptedTransfer {
                encrypted_data: body.encrypted_data,
                salt: body.salt,
                iv: body.iv,
                phone: body.phone,
            }),
        ),
{
    let transfer = EncryptedTransfer {
        encrypted_data: body.encrypted_data,
        salt: body.salt,
        iv: body.iv,
        phone: body.phone,
    };
    let _ = store.insert(body.transfer_id, transfer);
    Ok(
        UploadEncryptedDataResponse {
            success: true,
            message: "Encrypted data uploaded successfully".to_owned(),
        },
    )
}

/// The bytes inside an optional byte vector.
pub open spec fn bytes_of(bytes: Option<Vec<u8>>) -> Option<Seq<u8>> {
    match bytes {
        Some(content) => Some(content@),
        None => None,
    }
}

/// Hands out the encrypted data of the transfer in `body`, where there is
/// one and it was deposited for the same phone number.
pub fn download_encrypted_data(
    store: &EncryptedDataStore,
    body: &DownloadEncryptedDataRequest,
) -> (answer: Result<DownloadEncryptedDataResponse, StatusCode>)
    ensures
        answer matches Ok(response) && {
            let known = store@.contains_key(body.transfer_id@);
            let granted = known && store@[body.transfer_id@].phone@ == body.phone@;
            &&& response.success == granted
            &&& bytes_of(response.encrypted_data) == if granted {
                Some(store@[body.transfer_id@].encrypted_data@)
            } else {
                None
            }
            &&& bytes_of(response.salt) == if granted {
                Some(store@[body.transfer_id@].salt@)
            } else {
                None
            }
            &&& bytes_of(response.iv) == if granted {
                Some(store@[body.transfer_id@].iv@)
            } else {
                None
            }
            &&& response.message@ == if granted {
                "Encrypted data retrieved successfully"@
            } else if known {
                "Phone number mismatch"@
            } else {
                "Transfer ID not found or expired"@
            }
        },
{
    match store.get(&body.transfer_id) {
        Some(transfer) => {
            if transfer.phone == body.phone {
                Ok(
                    DownloadEncryptedDataResponse {
                        success: true,
                        encrypted_data: Some(copy_bytes(&transfer.encrypted_data)),
                        salt: Some(copy_bytes(&transfer.salt)),
                        iv: Some(copy_bytes(&transfer.iv)),
                        message: "Encrypted data retrieved successfully".to_owned(),
                    },
                )
            } else {
                Ok(
                    DownloadEncryptedDataResponse {
                        success: false,
                        encrypted_data: None,
                        salt: None,
                        iv: None,
                        message: "Phone number mismatch".to_owned(),
                    },
                )
            }
        },
        None => Ok(
            DownloadEncryptedDataResponse {
                success: false,
                encrypted_data: None,
                salt: None,
                iv: None,
                message: "Transfer ID not found or expired".to_owned(),
            },
        ),
    }
}

/// A copy of a byte vector.
fn copy_bytes(bytes: &Vec<u8>) -> (copy: Vec<u8>)
    ensures
        copy@ == bytes@,
{
    let copy = bytes.clone();
    assert(copy@ =~= bytes@);
    copy
}

} // verus!
